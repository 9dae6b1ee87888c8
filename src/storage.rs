use vstd::prelude::*;
use crate::format::{json_array, json_string_array, readme_block, readme_text};
use crate::model::ProcessedResult;
use crate::text::{concat, decimal, json_string, json_text, string_views, unsigned_text};
use crate::time::{format_utc, rfc3339, rfc3339_text};

verus! {

/// A failure to store a file.
#[derive(Debug)]
pub struct StorageError {
    pub message: String,
}

impl StorageError {
    pub fn new(message: &str) -> (r: StorageError)
        ensures
            r.message@ == message@,
    {
        StorageError { message: String::from_str(message) }
    }
}

/// An enriched record as one JSON line, keys in the order of its fields.
pub open spec fn processed_jsonl(p: ProcessedResult) -> Seq<char> {
    "{\"id\":"@ + decimal(p.id as int) + ",\"title\":"@ + json_text(p.title@)
        + ",\"original\":"@ + json_text(p.original@) + ",\"summary\":"@ + json_text(p.summary@)
        + ",\"authors\":"@ + json_array(string_views(p.authors@)) + ",\"published\":"@
        + json_text(rfc3339_text(p.published.secs as int, p.published.nanos as int))
        + ",\"link\":"@ + json_text(p.link@) + "}\n"@
}

/// The Markdown block of an enriched record, with its new summary.
pub open spec fn processed_readme(p: ProcessedResult) -> Seq<char> {
    readme_block(p.title@, string_views(p.authors@), p.summary@, p.published, p.link@)
}

pub open spec fn all_published_valid(data: Seq<ProcessedResult>) -> bool {
    forall|i: int| 0 <= i < data.len() ==> (#[trigger] data[i]).published.wf()
}

/// The Markdown block of an enriched record.
pub fn processed_to_readme(data: &ProcessedResult) -> (r: String)
    requires
        data.published.wf(),
    ensures
        r@ == processed_readme(*data),
{
    let date = format_utc(data.published.secs, "%Y.%m.%d");
    readme_text(&data.title, &data.authors, &data.summary, date.as_str(), &data.link)
}

/// An enriched record as one JSON line.
pub fn processed_to_jsonl(data: &ProcessedResult) -> (r: String)
    requires
        data.published.wf(),
    ensures
        r@ == processed_jsonl(*data),
{
    let mut r = String::from_str("{\"id\":");
    r.append(unsigned_text(data.id as u64).as_str());
    r.append(",\"title\":");
    r.append(json_string(data.title.as_str()).as_str());
    r.append(",\"original\":");
    r.append(json_string(data.original.as_str()).as_str());
    r.append(",\"summary\":");
    r.append(json_string(data.summary.as_str()).as_str());
    r.append(",\"authors\":");
    r.append(json_string_array(&data.authors).as_str());
    r.append(",\"published\":");
    r.append(json_string(rfc3339(data.published).as_str()).as_str());
    r.append(",\"link\":");
    r.append(json_string(data.link.as_str()).as_str());
    r.append("}\n");
    r
}

/// The text of a JSON-lines file with one line per enriched record.
pub fn jsonl_document(data: &Vec<ProcessedResult>) -> (r: String)
    requires
        all_published_valid(data@),
    ensures
        r@ == concat(data@.map_values(|p: ProcessedResult| processed_jsonl(p))),
{
    let ghost lines = data@.map_values(|p: ProcessedResult| processed_jsonl(p));
    let n = data.len();
    let mut r = String::new();
    for i in 0..n
        invariant
            n == data@.len(),
            all_published_valid(data@),
            lines == data@.map_values(|p: ProcessedResult| processed_jsonl(p)),
            r@ == concat(lines.take(i as int)),
    {
        assert(lines.take(i + 1).drop_last() =~= lines.take(i as int));
        r.append(processed_to_jsonl(&data[i]).as_str());
    }
    assert(lines.take(n as int) =~= lines);
    r
}

/// The text of a Markdown file with one block per enriched record.
pub fn readme_document(data: &Vec<ProcessedResult>) -> (r: String)
    requires
        all_published_valid(data@),
    ensures
        r@ == concat(data@.map_values(|p: ProcessedResult| processed_readme(p))),
{
    let ghost blocks = data@.map_values(|p: ProcessedResult| processed_readme(p));
    let n = data.len();
    let mut r = String::new();
    for i in 0..n
        invariant
            n == data@.len(),
            all_published_valid(data@),
            blocks == data@.map_values(|p: ProcessedResult| processed_readme(p)),
            r@ == concat(blocks.take(i as int)),
    {
        assert(blocks.take(i + 1).drop_last() =~= blocks.take(i as int));
        r.append(processed_to_readme(&data[i]).as_str());
    }
    assert(blocks.take(n as int) =~= blocks);
    r
}

} // verus!
