use vstd::prelude::*;
use crate::text::string_views;
use crate::time::{format_utc, UtcTime};

verus! {

/// The categories searched by default.
pub open spec fn default_categories() -> Seq<Seq<char>> {
    seq!["cs.CL"@, "cs.AI"@, "cs.LG"@, "cs.MA"@]
}

fn default_category_list() -> (r: Vec<String>)
    ensures
        string_views(r@) == default_categories(),
{
    let r = vec![
        String::from_str("cs.CL"),
        String::from_str("cs.AI"),
        String::from_str("cs.LG"),
        String::from_str("cs.MA"),
    ];
    assert(string_views(r@) =~= default_categories());
    r
}

/// Search settings of a single-page query.
#[derive(Debug)]
pub struct Config {
    pub num_entries: i32,
    pub date_offset: i32,
    pub categories: Vec<String>,
}

impl Config {
    /// 500 entries from the day before yesterday, in four machine-learning categories.
    pub fn default() -> (r: Config)
        ensures
            r.num_entries == 500,
            r.date_offset == 1,
            string_views(r.categories@) == default_categories(),
    {
        Config { num_entries: 500, date_offset: 1, categories: default_category_list() }
    }

    pub fn new(num_entries: i32, date_offset: i32, categories: Vec<String>) -> (r: Config)
        ensures
            r.num_entries == num_entries,
            r.date_offset == date_offset,
            r.categories@ == categories@,
    {
        Config { num_entries, date_offset, categories }
    }
}

/// Harvest settings: page size, page limit, how many days back the one-day
/// window ends, and the categories searched.
#[derive(Debug)]
pub struct ArxivConfig {
    pub num_entries: i32,
    pub num_pages: i32,
    pub date_offset: i32,
    pub categories: Vec<String>,
}

impl ArxivConfig {
    /// Pages of 50, at most 10 of them, from the day before yesterday, in four
    /// machine-learning categories.
    pub fn default() -> (r: ArxivConfig)
        ensures
            r.num_entries == 50,
            r.num_pages == 10,
            r.date_offset == 1,
            string_views(r.categories@) == default_categories(),
    {
        ArxivConfig {
            num_entries: 50,
            num_pages: 10,
            date_offset: 1,
            categories: default_category_list(),
        }
    }

    pub fn new(num_entries: i32, num_pages: i32, date_offset: i32, categories: Vec<String>) -> (r:
        ArxivConfig)
        ensures
            r.num_entries == num_entries,
            r.num_pages == num_pages,
            r.date_offset == date_offset,
            r.categories@ == categories@,
    {
        ArxivConfig { num_entries, num_pages, date_offset, categories }
    }
}

/// Where a run's files go: a bucket and a key that names the run.
#[derive(Debug)]
pub struct NameConfig {
    pub bucket: String,
    key: String,
}

impl NameConfig {
    /// The bucket the files go to.
    pub closed spec fn bucket(&self) -> Seq<char> {
        self.bucket@
    }

    /// The key that names the run.
    pub closed spec fn key(&self) -> Seq<char> {
        self.key@
    }

    pub fn new(bucket: &str, key: &str) -> (r: NameConfig)
        ensures
            r.bucket() == bucket@,
            r.key() == key@,
    {
        NameConfig { bucket: String::from_str(bucket), key: String::from_str(key) }
    }

    /// A run named after the instant `now`, written `yymmddHHMMSS` in UTC.
    pub fn default(bucket: &str, now: UtcTime) -> (r: NameConfig)
        requires
            now.wf(),
        ensures
            r.bucket() == bucket@,
            r.key() == crate::time::utc_text(now.secs as int, "%y%m%d%H%M%S"@),
    {
        let key = format_utc(now.secs, "%y%m%d%H%M%S");
        Self::new(bucket, key.as_str())
    }

    /// `raw/raw_<key>.jsonl`
    pub fn raw_jsonl_path(&self) -> (r: String)
        ensures
            r@ == "raw/raw_"@ + self.key() + ".jsonl"@,
    {
        let mut r = String::from_str("raw/raw_");
        r.append(self.key.as_str());
        r.append(".jsonl");
        r
    }

    /// `processed/processed_<key>.jsonl`
    pub fn processed_jsonl_path(&self) -> (r: String)
        ensures
            r@ == "processed/processed_"@ + self.key() + ".jsonl"@,
    {
        let mut r = String::from_str("processed/processed_");
        r.append(self.key.as_str());
        r.append(".jsonl");
        r
    }
}

} // verus!
