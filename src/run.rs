//! The decisions of a whole run: which pages to fetch once the discovery
//! fetch has told how many there are, and how the page tasks' results add up.

use vstd::prelude::*;
use crate::decimal::{digits, push_unsigned, push_signed, signed_digits};
use crate::model::{ceil_div, PageResult, Pagination, Root};
use crate::page::{page_result_of, plan_of};

verus! {

/// The page numbers `1..=page_count` (none when `page_count` is not positive).
pub open spec fn pages_of(page_count: int) -> Seq<i32> {
    Seq::new(
        if page_count > 0 { page_count as nat } else { 0 },
        |i: int| (i + 1) as i32,
    )
}

/// The sum of the processed counts of a sequence of page results.
pub open spec fn sum_counts(rs: Seq<PageResult>) -> int
    decreases rs.len(),
{
    if rs.len() == 0 {
        0
    } else {
        sum_counts(rs.drop_last()) + rs.last().processed_count
    }
}

/// The progress line printed after a page result has been added.
pub open spec fn progress_text(processed: int, total: int, page: int, page_count: int) -> Seq<char> {
    "Processed "@ + digits(processed as nat) + " of "@ + signed_digits(total) + " \u{1F9FE} Orders (Page -> "@
        + signed_digits(page) + " of "@ + signed_digits(page_count) + ")"@
}

/// The line printed before the page tasks start.
pub open spec fn start_text(total: int) -> Seq<char> {
    "About to start deleting: "@ + signed_digits(total)
}

/// The pages to fetch and process, one task each, learnt from the discovery
/// fetch: every page from the first to the last.
pub fn page_numbers(pagination: &Pagination) -> (r: Vec<i32>)
    ensures
        r@ == pages_of(pagination.page_count as int),
{
    let mut r: Vec<i32> = Vec::new();
    let mut page: i64 = 1;
    if pagination.page_count <= 0 {
        assert(r@ =~= pages_of(pagination.page_count as int));
        return r;
    }
    while page <= pagination.page_count as i64
        invariant
            1 <= page <= pagination.page_count + 1,
            pagination.page_count > 0,
            r@ =~= pages_of(page - 1),
        decreases pagination.page_count + 1 - page,
    {
        r.push(page as i32);
        page = page + 1;
    }
    r
}

/// The line that announces how many orders are about to be deleted.
pub fn start_line(total: i32) -> (r: String)
    ensures
        r@ == start_text(total as int),
{
    let mut s = String::from_str("About to start deleting: ");
    push_signed(&mut s, total as i64);
    s
}

/// The running account of a run: the orders processed so far, against the
/// totals that the discovery fetch reported.
#[derive(Debug, Clone, Copy, PartialEq, Eq, Structural)]
pub struct Progress {
    pub processed: u64,
    pub total: i32,
    pub page_count: i32,
}

impl Progress {
    /// Nothing processed yet, against the totals of `pagination`.
    pub fn new(pagination: &Pagination) -> (r: Progress)
        ensures
            r.processed == 0,
            r.total == pagination.total,
            r.page_count == pagination.page_count,
    {
        Progress { processed: 0, total: pagination.total, page_count: pagination.page_count }
    }

    /// Adds the result of one page task and returns the line that reports it.
    pub fn record(&mut self, result: &PageResult) -> (line: String)
        requires
            old(self).processed + result.processed_count <= u64::MAX,
        ensures
            final(self).processed == old(self).processed + result.processed_count,
            final(self).total == old(self).total,
            final(self).page_count == old(self).page_count,
            line@ == progress_text(
                final(self).processed as int,
                final(self).total as int,
                result.page_number as int,
                final(self).page_count as int,
            ),
    {
        self.processed = self.processed + result.processed_count as u64;
        let mut s = String::from_str("Processed ");
        push_unsigned(&mut s, self.processed);
        s.append(" of ");
        push_signed(&mut s, self.total as i64);
        s.append(" \u{1F9FE} Orders (Page -> ");
        push_signed(&mut s, result.page_number as i64);
        s.append(" of ");
        push_signed(&mut s, self.page_count as i64);
        s.append(")");
        s
    }
}

/// The number of orders processed by all the page tasks together, or `None`
/// where that number does not fit in a `u64`.
pub fn total_processed(results: &Vec<PageResult>) -> (r: Option<u64>)
    ensures
        r is Some <==> sum_counts(results@) <= u64::MAX,
        r is Some ==> r->Some_0 == sum_counts(results@),
{
    let mut sum: u64 = 0;
    let mut i: usize = 0;
    while i < results.len()
        invariant
            i <= results@.len(),
            sum == sum_counts(results@.take(i as int)),
        decreases results@.len() - i,
    {
        proof {
            let next = results@.take(i + 1);
            assert(next.drop_last() =~= results@.take(i as int));
        }
        let c = results[i].processed_count as u64;
        if sum > u64::MAX - c {
            proof { lemma_sum_counts_grows(results@, i as int + 1); }
            return None;
        }
        sum = sum + c;
        i = i + 1;
    }
    assert(results@.take(i as int) =~= results@);
    Some(sum)
}

/// Adding page results never lowers the sum: the sum over a prefix is at most
/// the sum over the whole sequence.
pub proof fn lemma_sum_counts_grows(rs: Seq<PageResult>, n: int)
    requires
        0 <= n <= rs.len(),
    ensures
        sum_counts(rs.take(n)) <= sum_counts(rs),
    decreases rs.len() - n,
{
    if n < rs.len() {
        lemma_sum_counts_grows(rs, n + 1);
        assert(rs.take(n + 1).drop_last() =~= rs.take(n));
    } else {
        assert(rs.take(n) =~= rs);
    }
}

/// The orders of the pages that were fetched; a page whose fetch failed
/// counts for none.
pub open spec fn fetched_records(fetched: Seq<Option<Root>>) -> int
    decreases fetched.len(),
{
    if fetched.len() == 0 {
        0
    } else {
        fetched_records(fetched.drop_last()) + match fetched.last() {
            Some(root) => root.data@.len() as int,
            None => 0,
        }
    }
}

/// The results of the page tasks for `pages`, where `fetched[i]` is what the
/// fetch of `pages[i]` gave.
pub open spec fn page_results(fetched: Seq<Option<Root>>, pages: Seq<i32>) -> Seq<PageResult> {
    Seq::new(fetched.len(), |i: int| page_result_of(fetched[i], pages[i]))
}

/// A run starts one page task for each page that the discovery fetch
/// reported, `ceil(total / page_size)` of them, numbered from 1 with none
/// repeated.
pub proof fn lemma_one_task_per_page(pagination: Pagination)
    requires
        pagination.well_formed(),
    ensures
        pages_of(pagination.page_count as int).len() == ceil_div(
            pagination.total as int,
            pagination.page_size as int,
        ),
        forall|i: int|
            0 <= i < pages_of(pagination.page_count as int).len() ==> #[trigger] pages_of(
                pagination.page_count as int,
            )[i] == i + 1,
{
    let t = pagination.total as int;
    let s = pagination.page_size as int;
    assert(ceil_div(t, s) >= 0) by (nonlinear_arith)
        requires
            t >= 0,
            s > 0,
    {}
}

/// The processed counts of all page results add up to the orders on the pages
/// that were fetched; a page whose fetch failed adds nothing.
pub proof fn lemma_processed_sum(fetched: Seq<Option<Root>>, pages: Seq<i32>)
    requires
        fetched.len() == pages.len(),
    ensures
        sum_counts(page_results(fetched, pages)) == fetched_records(fetched),
    decreases fetched.len(),
{
    if fetched.len() > 0 {
        let f = fetched.drop_last();
        let p = pages.drop_last();
        lemma_processed_sum(f, p);
        assert(page_results(fetched, pages).drop_last() =~= page_results(f, p));
    }
}

/// Against a backend with no orders left the discovery fetch reports no
/// page, so a run starts no page task; an empty page plans no deletion and
/// counts for none.
pub proof fn lemma_empty_backend(pagination: Pagination, root: Root, page: i32)
    requires
        pagination.well_formed(),
        pagination.total == 0,
        root.data@.len() == 0,
    ensures
        pages_of(pagination.page_count as int).len() == 0,
        plan_of(root.data@).len() == 0,
        page_result_of(Some(root), page).processed_count == 0,
{
    let s = pagination.page_size as int;
    assert(ceil_div(0, s) == 0) by (nonlinear_arith)
        requires
            s > 0,
    {}
}

} // verus!
