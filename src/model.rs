use vstd::prelude::*;
use crate::text::string_views;
use crate::time::UtcTime;

verus! {

/// What a record holds, as mathematical values.
pub struct RecordModel {
    pub id: nat,
    pub title: Seq<char>,
    pub summary: Seq<char>,
    pub authors: Seq<Seq<char>>,
    pub published: UtcTime,
    pub link: Seq<char>,
}

/// One harvested paper: its run-wide sequence number, whitespace-normalized title
/// and summary, authors in document order, publication instant and home-page
/// link (empty when it has none).
#[derive(Debug)]
pub struct ArxivResult {
    pub id: usize,
    pub title: String,
    pub summary: String,
    pub authors: Vec<String>,
    pub published: UtcTime,
    pub link: String,
}

impl View for ArxivResult {
    type V = RecordModel;

    open spec fn view(&self) -> RecordModel {
        RecordModel {
            id: self.id as nat,
            title: self.title@,
            summary: self.summary@,
            authors: string_views(self.authors@),
            published: self.published,
            link: self.link@,
        }
    }
}

impl ArxivResult {
    pub open spec fn wf(&self) -> bool {
        self.published.wf()
    }

    pub fn new(
        id: usize,
        title: String,
        summary: String,
        authors: Vec<String>,
        published: UtcTime,
        link: String,
    ) -> (r: ArxivResult)
        ensures
            r.id == id,
            r.title@ == title@,
            r.summary@ == summary@,
            r.authors@ == authors@,
            r.published == published,
            r.link@ == link@,
    {
        ArxivResult { id, title, summary, authors, published, link }
    }

    /// The same record with its summary replaced.
    pub fn with_summary(self, summary: String) -> (r: ArxivResult)
        ensures
            r@ == (RecordModel { summary: summary@, ..self@ }),
            r.published == self.published,
    {
        ArxivResult { summary, ..self }
    }
}

/// A record after enrichment, keeping the original summary beside the new one.
#[derive(Debug)]
pub struct ProcessedResult {
    pub id: usize,
    pub title: String,
    pub original: String,
    pub summary: String,
    pub authors: Vec<String>,
    pub published: UtcTime,
    pub link: String,
}

impl ProcessedResult {
    pub fn new(
        id: usize,
        title: String,
        original: String,
        summary: String,
        authors: Vec<String>,
        published: UtcTime,
        link: String,
    ) -> (r: ProcessedResult)
        ensures
            r.id == id,
            r.title@ == title@,
            r.original@ == original@,
            r.summary@ == summary@,
            r.authors@ == authors@,
            r.published == published,
            r.link@ == link@,
    {
        ProcessedResult { id, title, original, summary, authors, published, link }
    }

    /// `original` with `summary` as its new summary; its old summary is kept as
    /// `original`.
    pub fn from_result(original: ArxivResult, summary: String) -> (r: ProcessedResult)
        ensures
            r.id == original.id,
            r.title@ == original.title@,
            r.original@ == original.summary@,
            r.summary@ == summary@,
            r.authors@ == original.authors@,
            r.published == original.published,
            r.link@ == original.link@,
    {
        ProcessedResult {
            id: original.id,
            title: original.title,
            original: original.summary,
            summary,
            authors: original.authors,
            published: original.published,
            link: original.link,
        }
    }
}

} // verus!

verus! {

pub open spec fn record_views(v: Seq<ArxivResult>) -> Seq<RecordModel> {
    v.map_values(|r: ArxivResult| r@)
}

} // verus!
