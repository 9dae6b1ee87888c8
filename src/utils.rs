use vstd::prelude::*;
use crate::format::record_readme;
use crate::model::{record_views, ArxivResult};
use crate::text::concat;

verus! {

/// Writes harvested records as Markdown.
pub struct Formatter;

impl Formatter {
    /// The Markdown block of a record.
    pub fn to_readme(data: &ArxivResult) -> (r: String)
        requires
            data.wf(),
        ensures
            r@ == record_readme(data@),
    {
        crate::format::Formatter::to_readme(data)
    }
}

/// Prepares Markdown files of harvested records; writing them is left to the
/// caller.
pub struct LocalSaver;

pub open spec fn all_valid(data: Seq<ArxivResult>) -> bool {
    forall|i: int| 0 <= i < data.len() ==> (#[trigger] data[i]).wf()
}

impl LocalSaver {
    /// The text of a Markdown file with one block per record, in order.
    pub fn readme_document(data: &Vec<ArxivResult>) -> (r: String)
        requires
            all_valid(data@),
        ensures
            r@ == concat(record_views(data@).map_values(|m| record_readme(m))),
    {
        let ghost blocks = record_views(data@).map_values(|m| record_readme(m));
        let n = data.len();
        let mut r = String::new();
        for i in 0..n
            invariant
                n == data@.len(),
                all_valid(data@),
                blocks == record_views(data@).map_values(|m| record_readme(m)),
                r@ == concat(blocks.take(i as int)),
        {
            assert(blocks.take(i + 1).drop_last() =~= blocks.take(i as int));
            r.append(Formatter::to_readme(&data[i]).as_str());
        }
        assert(blocks.take(n as int) =~= blocks);
        r
    }
}

/// Uploads to object storage, which the application does.
pub struct S3Saver;

} // verus!
