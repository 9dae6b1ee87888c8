use vstd::prelude::*;
use crate::config::ArxivConfig;
use crate::model::{record_views, ArxivResult, RecordModel};
use crate::normalize::normalized;
use crate::time::{parse_rfc3339, rfc3339_instant};
use crate::xml::{
    decode_document, decoded, entry_views, new_entry, ArxivDocument, EntryModel, XmlToken,
};

verus! {

/// Where a harvest stands: about to fetch a page, stopped at an empty page, or
/// stopped at the page limit.
#[derive(Clone, Copy, Debug, PartialEq, Eq, Structural)]
pub enum HarvestState {
    Fetching(i32),
    Exhausted,
    Done,
}

pub struct HarvestModel {
    pub state: HarvestState,
    pub records: Seq<RecordModel>,
    pub max_pages: int,
    pub page_size: int,
}

/// The records of one page, numbered on from `first_id`.
pub open spec fn page_records(first_id: nat, page: Seq<EntryModel>) -> Seq<RecordModel> {
    Seq::new(page.len(), |i: int| normalized((first_id + i) as nat, page[i]))
}

/// The first state: fetching page 0, or done at once when no page may be fetched.
pub open spec fn initial_state(max_pages: int) -> HarvestState {
    if max_pages > 0 {
        HarvestState::Fetching(0)
    } else {
        HarvestState::Done
    }
}

/// What the entries of the page being fetched do: an empty page stops the
/// harvest; otherwise its records are numbered on and kept, and the next page
/// is fetched unless the page limit is reached.
pub open spec fn after_page(h: HarvestModel, page: Seq<EntryModel>) -> HarvestModel {
    match h.state {
        HarvestState::Fetching(n) => if page.len() == 0 {
            HarvestModel { state: HarvestState::Exhausted, ..h }
        } else {
            HarvestModel {
                state: if n + 1 >= h.max_pages {
                    HarvestState::Done
                } else {
                    HarvestState::Fetching((n + 1) as i32)
                },
                records: h.records + page_records(h.records.len(), page),
                ..h
            }
        },
        _ => h,
    }
}

/// Record `i` has the id `i`.
pub open spec fn dense_ids(records: Seq<RecordModel>) -> bool {
    forall|i: int| 0 <= i < records.len() ==> #[trigger] records[i].id == i
}

pub open spec fn harvest_wf(h: HarvestModel) -> bool {
    &&& dense_ids(h.records)
    &&& forall|i: int| 0 <= i < h.records.len() ==> (#[trigger] h.records[i]).published.wf()
    &&& match h.state {
        HarvestState::Fetching(n) => 0 <= n < h.max_pages,
        _ => true,
    }
}

/// How many entries of a page have a date that does not read as RFC 3339.
pub open spec fn undated(page: Seq<EntryModel>) -> nat
    decreases page.len(),
{
    if page.len() == 0 {
        0
    } else {
        undated(page.drop_last()) + if rfc3339_instant(page.last().published) is None {
            1nat
        } else {
            0nat
        }
    }
}

/// The entries of a decoded document, `None` when it did not decode.
pub open spec fn doc_entries(doc: Option<ArxivDocument>) -> Option<Seq<EntryModel>> {
    match doc {
        Some(d) => Some(entry_views(d.entries@)),
        None => None,
    }
}

/// The page a decode result counts as: its entries, or no entry when the text did
/// not decode (or, which memory rules out, when the ids would run past `usize`).
pub open spec fn taken_page(h: HarvestModel, doc: Option<Seq<EntryModel>>) -> Seq<EntryModel> {
    match doc {
        Some(es) => if h.records.len() + es.len() <= usize::MAX {
            es
        } else {
            Seq::empty()
        },
        None => Seq::empty(),
    }
}

/// What taking one fetched page reports: whether its text decoded, and how many
/// of its entries got the epoch because their date did not read.
#[derive(Clone, Copy, Debug, PartialEq, Eq, Structural)]
pub struct PageReport {
    pub decoded: bool,
    pub undated: usize,
}

/// The page-by-page harvest: which page to fetch next, and what each fetched page
/// adds. Pages are taken strictly one after another, since ids and the stop on
/// an empty page depend on the pages before.
pub struct HarvestLoop {
    state: HarvestState,
    records: Vec<ArxivResult>,
    max_pages: i32,
    page_size: i32,
}

impl View for HarvestLoop {
    type V = HarvestModel;

    closed spec fn view(&self) -> HarvestModel {
        HarvestModel {
            state: self.state,
            records: record_views(self.records@),
            max_pages: self.max_pages as int,
            page_size: self.page_size as int,
        }
    }
}

impl HarvestLoop {
    pub open spec fn wf(&self) -> bool {
        harvest_wf(self@)
    }

    /// A harvest with the page size and page limit of `config`.
    pub fn new(config: &ArxivConfig) -> (h: HarvestLoop)
        ensures
            h@ == (HarvestModel {
                state: initial_state(config.num_pages as int),
                records: Seq::empty(),
                max_pages: config.num_pages as int,
                page_size: config.num_entries as int,
            }),
            h.wf(),
    {
        let state = if config.num_pages > 0 {
            HarvestState::Fetching(0)
        } else {
            HarvestState::Done
        };
        let h = HarvestLoop {
            state,
            records: Vec::new(),
            max_pages: config.num_pages,
            page_size: config.num_entries,
        };
        assert(record_views(h.records@) =~= Seq::empty());
        h
    }

    pub fn state(&self) -> (r: HarvestState)
        ensures
            r == self@.state,
    {
        self.state
    }

    /// The position of the first entry of the page to fetch: page `n` starts at
    /// `n` times the page size. `None` once the harvest has stopped.
    pub fn next_start(&self) -> (r: Option<i64>)
        ensures
            match self@.state {
                HarvestState::Fetching(n) => r == Some((n * self@.page_size) as i64),
                _ => r is None,
            },
    {
        match self.state {
            HarvestState::Fetching(n) => {
                proof {
                    let a = n as int;
                    let b = self.page_size as int;
                    assert(-0x4000_0000_0000_0000 <= a * b <= 0x4000_0000_0000_0000)
                        by (nonlinear_arith)
                        requires
                            -0x8000_0000 <= a <= 0x8000_0000,
                            -0x8000_0000 <= b <= 0x8000_0000,
                    ;
                }
                Some((n as i64) * (self.page_size as i64))
            },
            _ => None,
        }
    }

    /// Takes the decoded page that was fetched for the current state; returns how
    /// many of its entries got the epoch because their date did not read.
    pub fn accept_page(&mut self, doc: ArxivDocument) -> (undated_count: usize)
        requires
            old(self).wf(),
            old(self)@.records.len() + doc.entries@.len() <= usize::MAX,
        ensures
            final(self)@ == after_page(old(self)@, entry_views(doc.entries@)),
            final(self).wf(),
            undated_count == if old(self)@.state is Fetching {
                undated(entry_views(doc.entries@))
            } else {
                0
            },
    {
        let n = match self.state {
            HarvestState::Fetching(n) => n,
            _ => {
                return 0;
            },
        };
        let ghost ev = entry_views(doc.entries@);
        let ghost old_records = record_views(self.records@);
        let mut entries = doc.entries;
        let m = entries.len();
        if m == 0 {
            self.state = HarvestState::Exhausted;
            return 0;
        }
        let base = self.records.len();
        let mut k: usize = 0;
        let mut count: usize = 0;
        while k < m
            invariant
                count <= k,
                count == undated(ev.take(k as int)),
                m == entries@.len(),
                m == ev.len(),
                base == old_records.len(),
                base + m <= usize::MAX,
                k <= m,
                forall|j: int| k <= j < m ==> (#[trigger] entries@[j])@ == ev[j],
                record_views(self.records@) == old_records + page_records(base as nat, ev).take(
                    k as int,
                ),
                self.state == old(self).state,
                self.max_pages == old(self).max_pages,
                self.page_size == old(self).page_size,
                harvest_wf(self@),
            decreases m - k,
        {
            let mut e = new_entry();
            std::mem::swap(&mut e, &mut entries[k]);
            assert(e@ == ev[k as int]);
            assert(ev.take(k + 1).drop_last() =~= ev.take(k as int));
            let parsed = parse_rfc3339(e.published.as_str());
            if parsed.is_none() {
                count = count + 1;
            }
            let r = ArxivResult::from_parsed_entry(base + k, e, parsed);
            assert(r@ == normalized((base + k) as nat, ev[k as int]));
            let ghost before = record_views(self.records@);
            self.records.push(r);
            assert(record_views(self.records@) =~= before.push(r@));
            assert(page_records(base as nat, ev).take(k + 1) =~= page_records(
                base as nat,
                ev,
            ).take(k as int).push(r@));
            k = k + 1;
        }
        assert(page_records(base as nat, ev).take(m as int) =~= page_records(base as nat, ev));
        assert(ev.take(m as int) =~= ev);
        if n + 1 >= self.max_pages {
            self.state = HarvestState::Done;
        } else {
            self.state = HarvestState::Fetching(n + 1);
        }
        count
    }

    /// Takes the decode result of the page fetched for the current state: a page
    /// that did not decode counts as an empty page, and so stops the harvest with
    /// the records gathered so far.
    pub fn accept_decoded(&mut self, doc: Option<ArxivDocument>) -> (undated_count: usize)
        requires
            old(self).wf(),
        ensures
            final(self)@ == after_page(old(self)@, taken_page(old(self)@, doc_entries(doc))),
            final(self).wf(),
            undated_count == if old(self)@.state is Fetching {
                undated(taken_page(old(self)@, doc_entries(doc)))
            } else {
                0
            },
    {
        let doc = match doc {
            Some(d) => d,
            None => ArxivDocument::empty(),
        };
        if doc.entries.len() <= usize::MAX - self.records.len() {
            self.accept_page(doc)
        } else {
            let empty = ArxivDocument::empty();
            assert(entry_views(empty.entries@) =~= Seq::empty());
            self.accept_page(empty)
        }
    }

    /// Decodes the text of the page fetched for the current state and takes it. A
    /// text that does not decode, as the empty text or a failed fetch may not,
    /// counts as an empty page and stops the harvest; the report says so.
    pub fn accept_xml(&mut self, xml: &str) -> (r: PageReport)
        requires
            old(self).wf(),
        ensures
            final(self).wf(),
            !r.decoded ==> final(self)@ == after_page(old(self)@, Seq::empty()) && r.undated == 0,
            r.decoded ==> exists|toks: Seq<XmlToken>| #[trigger]
                decoded(toks) is Some && final(self)@ == after_page(
                    old(self)@,
                    taken_page(old(self)@, decoded(toks)),
                ),
    {
        let doc = decode_document(xml);
        let decoded_ok = doc.is_some();
        let undated_count = self.accept_decoded(doc);
        proof {
            if !decoded_ok {
                assert(taken_page(old(self)@, None) =~= Seq::<EntryModel>::empty());
            }
        }
        PageReport { decoded: decoded_ok, undated: undated_count }
    }

    /// The records gathered, in the order of the pages and of the entries in them.
    pub fn into_records(self) -> (r: Vec<ArxivResult>)
        ensures
            record_views(r@) == self@.records,
    {
        self.records
    }
}

} // verus!

verus! {

/// The harvest after taking `pages` one by one from `h`.
pub open spec fn run_pages(h: HarvestModel, pages: Seq<Seq<EntryModel>>) -> HarvestModel
    decreases pages.len(),
{
    if pages.len() == 0 {
        h
    } else {
        after_page(run_pages(h, pages.drop_last()), pages.last())
    }
}

/// The records of `pages`, numbered on from page to page.
pub open spec fn numbered(pages: Seq<Seq<EntryModel>>) -> Seq<RecordModel>
    decreases pages.len(),
{
    if pages.len() == 0 {
        Seq::empty()
    } else {
        let prev = numbered(pages.drop_last());
        prev + page_records(prev.len(), pages.last())
    }
}

/// A fresh harvest.
pub open spec fn start_model(max_pages: int, page_size: int) -> HarvestModel {
    HarvestModel {
        state: initial_state(max_pages),
        records: Seq::empty(),
        max_pages,
        page_size,
    }
}

/// Ids are dense across page boundaries: the records of any run of pages carry
/// the ids 0, 1, 2, ... in the order in which they were fetched.
pub proof fn lemma_ids_dense(pages: Seq<Seq<EntryModel>>)
    ensures
        dense_ids(numbered(pages)),
    decreases pages.len(),
{
    if pages.len() > 0 {
        lemma_ids_dense(pages.drop_last());
        let prev = numbered(pages.drop_last());
        let all = numbered(pages);
        assert forall|i: int| 0 <= i < all.len() implies #[trigger] all[i].id == i by {
            if i >= prev.len() {
                assert(all[i] == page_records(prev.len(), pages.last())[i - prev.len()]);
            } else {
                assert(all[i] == prev[i]);
            }
        }
    }
}

proof fn lemma_run_through_full_pages(
    max_pages: int,
    page_size: int,
    pages: Seq<Seq<EntryModel>>,
    j: int,
)
    requires
        0 <= j < max_pages <= i32::MAX,
        j <= pages.len(),
        forall|i: int| 0 <= i < j ==> (#[trigger] pages[i]).len() > 0,
    ensures
        run_pages(start_model(max_pages, page_size), pages.take(j)) == (HarvestModel {
            state: HarvestState::Fetching(j as i32),
            records: numbered(pages.take(j)),
            max_pages,
            page_size,
        }),
    decreases j,
{
    if j > 0 {
        lemma_run_through_full_pages(max_pages, page_size, pages, j - 1);
        assert(pages.take(j).drop_last() =~= pages.take(j - 1));
        assert(pages.take(j).last() == pages[j - 1]);
    } else {
        assert(pages.take(0) =~= Seq::<Seq<EntryModel>>::empty());
    }
}

proof fn lemma_stopped_stays(h: HarvestModel, pages: Seq<Seq<EntryModel>>)
    requires
        !(h.state is Fetching),
    ensures
        run_pages(h, pages) == h,
    decreases pages.len(),
{
    if pages.len() > 0 {
        lemma_stopped_stays(h, pages.drop_last());
    }
}

/// While pages `0..k` hold entries, the harvest is fetching page `j` after `j`
/// pages, for every `j` up to `k`: pages are asked for one after another.
pub proof fn lemma_requests_pages_in_order(
    max_pages: int,
    page_size: int,
    pages: Seq<Seq<EntryModel>>,
    k: int,
)
    requires
        0 <= k < max_pages <= i32::MAX,
        k < pages.len(),
        forall|i: int| 0 <= i < k ==> (#[trigger] pages[i]).len() > 0,
    ensures
        forall|j: int|
            0 <= j <= k ==> (#[trigger] run_pages(start_model(max_pages, page_size), pages.take(j))).state
                == HarvestState::Fetching(j as i32),
{
    assert forall|j: int| 0 <= j <= k implies (#[trigger] run_pages(
        start_model(max_pages, page_size),
        pages.take(j),
    )).state == HarvestState::Fetching(j as i32) by {
        lemma_run_through_full_pages(max_pages, page_size, pages, j);
    }
}

/// A harvest stops at the first empty page. With pages `0..k` non-empty, page `k`
/// empty and `k` below the page limit, the harvest asks for exactly the pages
/// `0..=k` (it is fetching page `j` after `j` pages), ends `Exhausted`, holds the
/// records of pages `0..k` numbered in order, and takes nothing from later pages.
pub proof fn lemma_stops_at_empty_page(
    max_pages: int,
    page_size: int,
    pages: Seq<Seq<EntryModel>>,
    k: int,
)
    requires
        0 <= k < max_pages <= i32::MAX,
        k < pages.len(),
        forall|i: int| 0 <= i < k ==> (#[trigger] pages[i]).len() > 0,
        pages[k].len() == 0,
    ensures
        forall|j: int|
            0 <= j <= k ==> (#[trigger] run_pages(start_model(max_pages, page_size), pages.take(j))).state
                == HarvestState::Fetching(j as i32),
        run_pages(start_model(max_pages, page_size), pages) == (HarvestModel {
            state: HarvestState::Exhausted,
            records: numbered(pages.take(k)),
            max_pages,
            page_size,
        }),
{
    let s = start_model(max_pages, page_size);
    lemma_requests_pages_in_order(max_pages, page_size, pages, k);
    lemma_run_through_full_pages(max_pages, page_size, pages, k);
    assert(pages.take(k + 1).drop_last() =~= pages.take(k));
    let stopped = run_pages(s, pages.take(k + 1));
    assert(stopped.state == HarvestState::Exhausted);
    lemma_run_split(s, pages, k + 1);
    lemma_stopped_stays(stopped, pages.skip(k + 1));
}

/// Taking pages in two runs is taking them in one.
pub proof fn lemma_run_split(h: HarvestModel, pages: Seq<Seq<EntryModel>>, j: int)
    requires
        0 <= j <= pages.len(),
    ensures
        run_pages(h, pages) == run_pages(run_pages(h, pages.take(j)), pages.skip(j)),
    decreases pages.len(),
{
    if pages.len() == j {
        assert(pages.take(j) =~= pages);
        assert(pages.skip(j) =~= Seq::<Seq<EntryModel>>::empty());
    } else {
        lemma_run_split(h, pages.drop_last(), j);
        assert(pages.drop_last().take(j) =~= pages.take(j));
        assert(pages.skip(j).drop_last() =~= pages.drop_last().skip(j));
        assert(pages.skip(j).last() == pages.last());
    }
}

} // verus!
