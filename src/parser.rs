use vstd::prelude::*;
use crate::config::ArxivConfig;
use crate::text::{decimal, signed_text, string_views};
use crate::time::{format_utc, secs_in_range, utc_text, UtcTime, SECS_PER_DAY};

verus! {

/// `cat:<c1>+OR+cat:<c2>...`: the categories joined with a logical OR.
pub open spec fn category_clause(cats: Seq<Seq<char>>) -> Seq<char>
    decreases cats.len(),
{
    if cats.len() == 0 {
        Seq::empty()
    } else if cats.len() == 1 {
        "cat:"@ + cats[0]
    } else {
        category_clause(cats.drop_last()) + "+OR+"@ + "cat:"@ + cats.last()
    }
}

/// The search URL for entries of the categories submitted from the start of
/// `from_day` to the start of `to_day` (both written `YYYYMMDD`), from position
/// `start`, `page_size` at a time.
pub open spec fn query_url(
    cats: Seq<Seq<char>>,
    from_day: Seq<char>,
    to_day: Seq<char>,
    start: int,
    page_size: int,
) -> Seq<char> {
    "https://export.arxiv.org/api/query/?search_query=%28"@ + category_clause(cats)
        + "%29+AND+submittedDate:["@ + from_day + "0000+TO+"@ + to_day + "0000]&start="@
        + decimal(start) + "&max_results="@ + decimal(page_size)
}

/// The instant `offset + 1` days before `now`, in whose day the window opens.
pub open spec fn window_open(now: int, offset: int) -> int {
    now - (offset + 1) * SECS_PER_DAY
}

/// The instant `offset` days before `now`, in whose day the window closes.
pub open spec fn window_close(now: int, offset: int) -> int {
    now - offset * SECS_PER_DAY
}

/// Both ends of the window are instants that can be written as dates.
pub open spec fn window_in_range(now: int, offset: int) -> bool {
    secs_in_range(window_open(now, offset)) && secs_in_range(window_close(now, offset))
}

/// The search URL from its parts: the categories, the first and the last day of
/// the window as `YYYYMMDD`, the start position and the page size.
pub fn build_query_url(
    categories: &Vec<String>,
    from_day: &str,
    to_day: &str,
    start: i64,
    page_size: i32,
) -> (r: String)
    ensures
        r@ == query_url(string_views(categories@), from_day@, to_day@, start as int, page_size as int),
{
    let ghost cats = string_views(categories@);
    let n = categories.len();
    let mut clause = String::new();
    for i in 0..n
        invariant
            n == categories@.len(),
            cats == string_views(categories@),
            clause@ == category_clause(cats.take(i as int)),
    {
        assert(cats.take(i + 1).drop_last() =~= cats.take(i as int));
        if i > 0 {
            clause.append("+OR+");
        }
        clause.append("cat:");
        clause.append(categories[i].as_str());
        proof {
            if i == 0 {
                assert(cats.take(1).len() == 1);
            }
        }
    }
    assert(cats.take(n as int) =~= cats);
    let mut r = String::from_str("https://export.arxiv.org/api/query/?search_query=%28");
    r.append(clause.as_str());
    r.append("%29+AND+submittedDate:[");
    r.append(from_day);
    r.append("0000+TO+");
    r.append(to_day);
    r.append("0000]&start=");
    r.append(signed_text(start).as_str());
    r.append("&max_results=");
    r.append(signed_text(page_size as i64).as_str());
    r
}

/// Builds the queries of a harvest from its settings.
#[derive(Debug)]
pub struct ArxivParser {
    pub config: ArxivConfig,
}

impl ArxivParser {
    pub fn from_config(config: ArxivConfig) -> (r: ArxivParser)
        ensures
            r.config == config,
    {
        ArxivParser { config }
    }

    /// A parser with the default settings.
    pub fn new() -> (r: ArxivParser)
        ensures
            r.config.num_entries == 50,
            r.config.num_pages == 10,
            r.config.date_offset == 1,
            string_views(r.config.categories@) == crate::config::default_categories(),
    {
        ArxivParser { config: ArxivConfig::default() }
    }

    /// The query for the page that begins at position `start`, over the day that
    /// begins `date_offset + 1` days before `now` (midnight UTC to midnight UTC).
    pub fn create_query_url(&self, now: UtcTime, start: i64) -> (r: String)
        requires
            window_in_range(now.secs as int, self.config.date_offset as int),
        ensures
            r@ == query_url(
                string_views(self.config.categories@),
                utc_text(window_open(now.secs as int, self.config.date_offset as int), "%Y%m%d"@),
                utc_text(window_close(now.secs as int, self.config.date_offset as int), "%Y%m%d"@),
                start as int,
                self.config.num_entries as int,
            ),
    {
        let offset = self.config.date_offset as i64;
        let from_day = format_utc(now.secs - (offset + 1) * SECS_PER_DAY, "%Y%m%d");
        let to_day = format_utc(now.secs - offset * SECS_PER_DAY, "%Y%m%d");
        build_query_url(
            &self.config.categories,
            from_day.as_str(),
            to_day.as_str(),
            start,
            self.config.num_entries,
        )
    }
}

} // verus!
