use vstd::prelude::*;
use crate::model::{ArxivResult, RecordModel};
use crate::text::{collapse_whitespace, collapse_ws};
use crate::time::{parse_rfc3339, rfc3339_instant, UtcTime};
use crate::xml::{link_views, ArxivEntry, EntryModel, LinkModel, LinkType};

verus! {

/// The target of the first link that points to the home page, or the empty
/// text when none does.
pub open spec fn home_link(links: Seq<LinkModel>) -> Seq<char>
    decreases links.len(),
{
    if links.len() == 0 {
        Seq::empty()
    } else if links[0].kind == Some(LinkType::Home) {
        links[0].href
    } else {
        home_link(links.drop_first())
    }
}

/// The instant a publication date reads as, or the epoch when it is not RFC 3339.
pub open spec fn published_of(text: Seq<char>) -> UtcTime {
    match rfc3339_instant(text) {
        Some((secs, nanos)) => UtcTime { secs: secs as i64, nanos: nanos as u32 },
        None => UtcTime { secs: 0, nanos: 0 },
    }
}

/// The record that an entry becomes under the id `id`.
pub open spec fn normalized(id: nat, e: EntryModel) -> RecordModel {
    RecordModel {
        id,
        title: collapse_ws(e.title),
        summary: collapse_ws(e.summary),
        authors: e.authors,
        published: published_of(e.published),
        link: home_link(e.links),
    }
}

fn first_home_link(entry: &ArxivEntry) -> (r: String)
    ensures
        r@ == home_link(entry@.links),
{
    let n = entry.links.len();
    let ghost lv = link_views(entry.links@);
    let mut i: usize = 0;
    assert(lv.subrange(0, n as int) =~= lv);
    while i < n
        invariant
            n == entry.links@.len(),
            lv == link_views(entry.links@),
            i <= n,
            home_link(lv) == home_link(lv.subrange(i as int, n as int)),
        decreases n - i,
    {
        assert(lv.subrange(i as int, n as int).drop_first() =~= lv.subrange(i + 1, n as int));
        match entry.links[i].link_type {
            Some(LinkType::Home) => {
                return entry.links[i].link.clone();
            },
            _ => {},
        }
        i = i + 1;
    }
    String::new()
}

/// The instant a date was read as, or the epoch when it could not be read.
pub open spec fn instant_or_epoch(parsed: Option<UtcTime>) -> UtcTime {
    match parsed {
        Some(t) => t,
        None => UtcTime { secs: 0, nanos: 0 },
    }
}

/// Whether a publication date reads as RFC 3339; a record whose date does not
/// gets the epoch instead.
pub fn published_parses(text: &str) -> (r: bool)
    ensures
        r == (rfc3339_instant(text@) is Some),
{
    parse_rfc3339(text).is_some()
}

impl ArxivResult {
    /// Normalizes a decoded entry whose date has been read as `parsed`: whitespace
    /// runs in the title and summary become single spaces, the instant is `parsed`
    /// or the epoch, and the link is the first one to the home page (empty when
    /// there is none).
    pub fn from_parsed_entry(id: usize, entry: ArxivEntry, parsed: Option<UtcTime>) -> (r:
        ArxivResult)
        ensures
            r@ == (RecordModel {
                id: id as nat,
                title: collapse_ws(entry@.title),
                summary: collapse_ws(entry@.summary),
                authors: entry@.authors,
                published: instant_or_epoch(parsed),
                link: home_link(entry@.links),
            }),
    {
        let title = collapse_whitespace(entry.title.as_str());
        let summary = collapse_whitespace(entry.summary.as_str());
        let published = match parsed {
            Some(t) => t,
            None => UtcTime::epoch(),
        };
        let link = first_home_link(&entry);
        ArxivResult { id, title, summary, authors: entry.authors, published, link }
    }

    /// Normalizes a decoded entry, reading its date as RFC 3339 (the epoch when it
    /// cannot be read).
    pub fn from_entry(id: usize, entry: ArxivEntry) -> (r: ArxivResult)
        ensures
            r@ == normalized(id as nat, entry@),
            r.wf(),
    {
        let parsed = parse_rfc3339(entry.published.as_str());
        ArxivResult::from_parsed_entry(id, entry, parsed)
    }
}

} // verus!
