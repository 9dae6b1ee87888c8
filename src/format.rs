use vstd::prelude::*;
use crate::model::{ArxivResult, RecordModel};
use crate::text::{decimal, json_string, json_text, string_views, unsigned_text};
use crate::time::{format_utc, rfc3339, rfc3339_text, utc_text, UtcTime};

verus! {

/// The names joined with `", "`.
pub open spec fn join_names(a: Seq<Seq<char>>) -> Seq<char>
    decreases a.len(),
{
    if a.len() == 0 {
        Seq::empty()
    } else if a.len() == 1 {
        a[0]
    } else {
        join_names(a.drop_last()) + ", "@ + a.last()
    }
}

/// The strings as a JSON array, without spaces.
pub open spec fn json_array_items(a: Seq<Seq<char>>) -> Seq<char>
    decreases a.len(),
{
    if a.len() == 0 {
        Seq::empty()
    } else if a.len() == 1 {
        json_text(a[0])
    } else {
        json_array_items(a.drop_last()) + ","@ + json_text(a.last())
    }
}

pub open spec fn json_array(a: Seq<Seq<char>>) -> Seq<char> {
    "["@ + json_array_items(a) + "]"@
}

/// The Markdown block of a paper from its parts, with its date already written.
pub open spec fn readme_with_date(
    title: Seq<char>,
    authors: Seq<Seq<char>>,
    summary: Seq<char>,
    date: Seq<char>,
    link: Seq<char>,
) -> Seq<char> {
    "### "@ + title + "\n_"@ + join_names(authors) + "_<br/>\n"@ + summary
        + "<br/>\n_Published: "@ + date + "_, ["@ + link + "]("@ + link + ")\n\n"@
}

/// The Markdown block of a paper.
pub open spec fn readme_block(
    title: Seq<char>,
    authors: Seq<Seq<char>>,
    summary: Seq<char>,
    published: UtcTime,
    link: Seq<char>,
) -> Seq<char> {
    readme_with_date(title, authors, summary, utc_text(published.secs as int, "%Y.%m.%d"@), link)
}

pub open spec fn record_readme(r: RecordModel) -> Seq<char> {
    readme_block(r.title, r.authors, r.summary, r.published, r.link)
}

/// A record as one JSON line, keys in alphabetical order, with `id` as its id.
pub open spec fn record_jsonl_with_id(id: int, r: RecordModel) -> Seq<char> {
    "{\"authors\":"@ + json_array(r.authors) + ",\"id\":"@ + decimal(id) + ",\"link\":"@
        + json_text(r.link) + ",\"published\":"@ + json_text(
        rfc3339_text(r.published.secs as int, r.published.nanos as int),
    ) + ",\"summary\":"@ + json_text(r.summary) + ",\"title\":"@ + json_text(r.title) + "}\n"@
}

/// A record as one JSON line, keys in the order of the record's fields.
pub open spec fn record_jsonl(r: RecordModel) -> Seq<char> {
    "{\"id\":"@ + decimal(r.id as int) + ",\"title\":"@ + json_text(r.title) + ",\"summary\":"@
        + json_text(r.summary) + ",\"authors\":"@ + json_array(r.authors) + ",\"published\":"@
        + json_text(rfc3339_text(r.published.secs as int, r.published.nanos as int))
        + ",\"link\":"@ + json_text(r.link) + "}\n"@
}

/// The names joined with `", "`.
pub fn join_authors(authors: &Vec<String>) -> (r: String)
    ensures
        r@ == join_names(string_views(authors@)),
{
    let ghost a = string_views(authors@);
    let n = authors.len();
    let mut r = String::new();
    for i in 0..n
        invariant
            n == authors@.len(),
            a == string_views(authors@),
            r@ == join_names(a.take(i as int)),
    {
        assert(a.take(i + 1).drop_last() =~= a.take(i as int));
        if i > 0 {
            r.append(", ");
        }
        r.append(authors[i].as_str());
        proof {
            if i == 0 {
                assert(r@ =~= a[0]);
            }
        }
    }
    assert(a.take(n as int) =~= a);
    r
}

/// The strings as a JSON array.
pub fn json_string_array(items: &Vec<String>) -> (r: String)
    ensures
        r@ == json_array(string_views(items@)),
{
    let ghost a = string_views(items@);
    let n = items.len();
    let mut body = String::new();
    for i in 0..n
        invariant
            n == items@.len(),
            a == string_views(items@),
            body@ == json_array_items(a.take(i as int)),
    {
        assert(a.take(i + 1).drop_last() =~= a.take(i as int));
        if i > 0 {
            body.append(",");
        }
        body.append(json_string(items[i].as_str()).as_str());
        proof {
            if i == 0 {
                assert(body@ =~= json_text(a[0]));
            }
        }
    }
    assert(a.take(n as int) =~= a);
    let mut r = String::from_str("[");
    r.append(body.as_str());
    r.append("]");
    r
}

/// The Markdown block of a paper from its parts, `date` being its publication
/// date as written.
pub fn readme_text(
    title: &String,
    authors: &Vec<String>,
    summary: &String,
    date: &str,
    link: &String,
) -> (r: String)
    ensures
        r@ == readme_with_date(title@, string_views(authors@), summary@, date@, link@),
{
    let mut r = String::from_str("### ");
    r.append(title.as_str());
    r.append("\n_");
    r.append(join_authors(authors).as_str());
    r.append("_<br/>\n");
    r.append(summary.as_str());
    r.append("<br/>\n_Published: ");
    r.append(date);
    r.append("_, [");
    r.append(link.as_str());
    r.append("](");
    r.append(link.as_str());
    r.append(")\n\n");
    r
}

/// Writes records as Markdown and as JSON lines.
pub struct Formatter;

impl Formatter {
    /// `### {title}\n_{authors joined by ", "}_<br/>\n{summary}<br/>\n_Published:
    /// {date as %Y.%m.%d}_, [{link}]({link})\n\n`
    pub fn to_readme(data: &ArxivResult) -> (r: String)
        requires
            data.wf(),
        ensures
            r@ == record_readme(data@),
    {
        let date = format_utc(data.published.secs, "%Y.%m.%d");
        readme_text(&data.title, &data.authors, &data.summary, date.as_str(), &data.link)
    }

    /// The record as one JSON line with `id` in place of its own id, keys in
    /// alphabetical order.
    pub fn to_jsonl_with_id(id: usize, data: &ArxivResult) -> (r: String)
        requires
            data.wf(),
        ensures
            r@ == record_jsonl_with_id(id as int, data@),
    {
        let mut r = String::from_str("{\"authors\":");
        r.append(json_string_array(&data.authors).as_str());
        r.append(",\"id\":");
        r.append(unsigned_text(id as u64).as_str());
        r.append(",\"link\":");
        r.append(json_string(data.link.as_str()).as_str());
        r.append(",\"published\":");
        r.append(json_string(rfc3339(data.published).as_str()).as_str());
        r.append(",\"summary\":");
        r.append(json_string(data.summary.as_str()).as_str());
        r.append(",\"title\":");
        r.append(json_string(data.title.as_str()).as_str());
        r.append("}\n");
        r
    }

    /// The record as one JSON line, keys in the order of its fields.
    pub fn to_jsonl(data: &ArxivResult) -> (r: String)
        requires
            data.wf(),
        ensures
            r@ == record_jsonl(data@),
    {
        let mut r = String::from_str("{\"id\":");
        r.append(unsigned_text(data.id as u64).as_str());
        r.append(",\"title\":");
        r.append(json_string(data.title.as_str()).as_str());
        r.append(",\"summary\":");
        r.append(json_string(data.summary.as_str()).as_str());
        r.append(",\"authors\":");
        r.append(json_string_array(&data.authors).as_str());
        r.append(",\"published\":");
        r.append(json_string(rfc3339(data.published).as_str()).as_str());
        r.append(",\"link\":");
        r.append(json_string(data.link.as_str()).as_str());
        r.append("}\n");
        r
    }
}

} // verus!

verus! {

/// Normalizing and formatting depend on the entry alone: the same entry, taken
/// twice, gives the same record, the same Markdown block and the same JSON line;
/// and the record's title and summary are already in normal form, so normalizing
/// them again changes nothing.
pub proof fn lemma_normalize_format_repeatable(
    id: nat,
    e1: crate::xml::EntryModel,
    e2: crate::xml::EntryModel,
)
    requires
        e1 == e2,
    ensures
        crate::normalize::normalized(id, e1) == crate::normalize::normalized(id, e2),
        record_readme(crate::normalize::normalized(id, e1)) == record_readme(
            crate::normalize::normalized(id, e2),
        ),
        record_jsonl(crate::normalize::normalized(id, e1)) == record_jsonl(
            crate::normalize::normalized(id, e2),
        ),
        crate::text::collapse_ws(crate::normalize::normalized(id, e1).title)
            == crate::normalize::normalized(id, e1).title,
        crate::text::collapse_ws(crate::normalize::normalized(id, e1).summary)
            == crate::normalize::normalized(id, e1).summary,
{
    crate::text::lemma_collapse_idempotent(e1.title);
    crate::text::lemma_collapse_idempotent(e1.summary);
}

} // verus!
