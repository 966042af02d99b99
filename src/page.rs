//! Processing of one fetched page: which deletions to make, in which order,
//! and what the page task reports back.

use vstd::prelude::*;
use crate::config::{ShopifyConfig, StrapiConfig};
use crate::model::{DataElement, PageResult, Root};
use crate::request::{
    shopify_delete_request, shopify_delete_view, strapi_delete_request, strapi_delete_view,
    HttpRequest, RequestView,
};

verus! {

/// The service in which an order is deleted, and the identifier it has there.
#[derive(Debug, Clone)]
pub enum DeleteTarget {
    /// The commerce platform, by the order's cart reference.
    Secondary(String),
    /// The content API, by the order's identifier.
    Primary(i32),
}

/// One deletion of a page's plan: the position of its order in the page, and
/// where it is deleted.
#[derive(Debug, Clone)]
pub struct DeleteCall {
    pub record: usize,
    pub target: DeleteTarget,
}

/// The deletions for the order at position `k`: in the commerce platform
/// first when it has a cart reference, then always in the content API.
pub open spec fn record_calls(k: int, e: DataElement) -> Seq<DeleteCall> {
    match e.attributes.cart_reference {
        Some(c) => seq![
            DeleteCall { record: k as usize, target: DeleteTarget::Secondary(c) },
            DeleteCall { record: k as usize, target: DeleteTarget::Primary(e.id) },
        ],
        None => seq![DeleteCall { record: k as usize, target: DeleteTarget::Primary(e.id) }],
    }
}

/// The deletions for a sequence of orders, order by order.
pub open spec fn plan_of(data: Seq<DataElement>) -> Seq<DeleteCall>
    decreases data.len(),
{
    if data.len() == 0 {
        Seq::empty()
    } else {
        plan_of(data.drop_last()) + record_calls(data.len() - 1, data.last())
    }
}

/// What a page task reports: the number of orders of the fetched page, or
/// none where the fetch failed.
pub open spec fn page_result_of(fetched: Option<Root>, page: i32) -> PageResult {
    PageResult {
        processed_count: match fetched {
            Some(root) => root.data.len(),
            None => 0,
        },
        page_number: page,
    }
}

/// What became of the deletions of one order: in the commerce platform
/// (`None` where the order has no cart reference) and in the content API.
#[derive(Debug, Clone, Copy, PartialEq, Eq, Structural)]
pub struct RecordOutcome {
    pub id: i32,
    pub secondary_ok: Option<bool>,
    pub primary_ok: bool,
}

impl RecordOutcome {
    /// Every deletion made for the order completed.
    pub fn fully_deleted(&self) -> (r: bool)
        ensures
            r == (self.primary_ok && self.secondary_ok != Some(false)),
    {
        self.primary_ok && match self.secondary_ok {
            Some(ok) => ok,
            None => true,
        }
    }
}

/// The outcome of the order at position `k`, where `results` holds what each
/// deletion of the plan of `data` returned, in plan order.
pub open spec fn outcome_of(data: Seq<DataElement>, results: Seq<bool>, k: int) -> RecordOutcome {
    let o = plan_of(data.take(k)).len() as int;
    match data[k].attributes.cart_reference {
        Some(_) => RecordOutcome { id: data[k].id, secondary_ok: Some(results[o]), primary_ok: results[o + 1] },
        None => RecordOutcome { id: data[k].id, secondary_ok: None, primary_ok: results[o] },
    }
}

/// The request that carries out one deletion.
pub open spec fn call_request_view(call: DeleteCall, shop: ShopifyConfig, strapi: StrapiConfig) -> RequestView {
    match call.target {
        DeleteTarget::Secondary(c) => shopify_delete_view(shop, "orders"@, c@),
        DeleteTarget::Primary(id) => strapi_delete_view(strapi, "order"@, id as int),
    }
}

/// The deletions to make for the orders of a fetched page, in the order in
/// which they are to be made. No outcome of a deletion changes this plan.
pub fn deletion_plan(root: &Root) -> (r: Vec<DeleteCall>)
    ensures
        r@ == plan_of(root.data@),
{
    let mut r: Vec<DeleteCall> = Vec::new();
    let mut i: usize = 0;
    while i < root.data.len()
        invariant
            i <= root.data@.len(),
            r@ == plan_of(root.data@.take(i as int)),
        decreases root.data@.len() - i,
    {
        let e = &root.data[i];
        let ghost before = r@;
        match &e.attributes.cart_reference {
            Some(c) => {
                r.push(DeleteCall { record: i, target: DeleteTarget::Secondary(c.clone()) });
            },
            None => {},
        }
        r.push(DeleteCall { record: i, target: DeleteTarget::Primary(e.id) });
        proof {
            let next = root.data@.take(i + 1);
            assert(next.drop_last() =~= root.data@.take(i as int));
            assert(next.last() == root.data@[i as int]);
            assert(r@ =~= before + record_calls(i as int, root.data@[i as int]));
        }
        i = i + 1;
    }
    assert(root.data@.take(i as int) =~= root.data@);
    r
}

/// The request that carries out `call`.
pub fn call_request(call: &DeleteCall, shop: &ShopifyConfig, strapi: &StrapiConfig) -> (r: HttpRequest)
    ensures
        r@ == call_request_view(*call, *shop, *strapi),
{
    match &call.target {
        DeleteTarget::Secondary(c) => shopify_delete_request(shop, "orders", c.as_str()),
        DeleteTarget::Primary(id) => strapi_delete_request(strapi, "order", *id),
    }
}

/// The outcome of each order of a page, in page order, from what each
/// deletion of its plan returned, in plan order.
pub fn record_outcomes(root: &Root, results: &Vec<bool>) -> (r: Vec<RecordOutcome>)
    requires
        results@.len() == plan_of(root.data@).len(),
    ensures
        r@.len() == root.data@.len(),
        forall|k: int| 0 <= k < r@.len() ==> #[trigger] r@[k] == outcome_of(root.data@, results@, k),
{
    let mut r: Vec<RecordOutcome> = Vec::new();
    let mut i: usize = 0;
    let mut j: usize = 0;
    while i < root.data.len()
        invariant
            i <= root.data@.len(),
            j == plan_of(root.data@.take(i as int)).len(),
            results@.len() == plan_of(root.data@).len(),
            r@.len() == i,
            forall|k: int| 0 <= k < i ==> #[trigger] r@[k] == outcome_of(root.data@, results@, k),
        decreases root.data@.len() - i,
    {
        let e = &root.data[i];
        proof {
            let t = root.data@.take(i + 1);
            assert(t.drop_last() =~= root.data@.take(i as int));
            assert(t.last() == root.data@[i as int]);
            assert(plan_of(t) == plan_of(root.data@.take(i as int)) + record_calls(i as int, root.data@[i as int]));
            lemma_plan_prefix(root.data@, i + 1);
            assert(results@.len() == results.len());
        }
        let outcome = match &e.attributes.cart_reference {
            Some(_) => {
                assert(record_calls(i as int, root.data@[i as int]).len() == 2);
                let o = RecordOutcome { id: e.id, secondary_ok: Some(results[j]), primary_ok: results[j + 1] };
                j = j + 2;
                o
            },
            None => {
                assert(record_calls(i as int, root.data@[i as int]).len() == 1);
                let o = RecordOutcome { id: e.id, secondary_ok: None, primary_ok: results[j] };
                j = j + 1;
                o
            },
        };
        r.push(outcome);
        i = i + 1;
    }
    r
}

/// The result of the task for page `page`: the number of orders on the page
/// when it was fetched (each one is attempted, whatever its deletions
/// returned), zero when the fetch failed.
pub fn page_result(fetched: Option<&Root>, page: i32) -> (r: PageResult)
    ensures
        r == page_result_of(
            match fetched {
                Some(root) => Some(*root),
                None => None,
            },
            page,
        ),
{
    match fetched {
        Some(root) => PageResult { processed_count: root.data.len(), page_number: page },
        None => PageResult { processed_count: 0, page_number: page },
    }
}

/// Every deletion of the plan of `data` belongs to one of its orders.
pub proof fn lemma_plan_records_bounded(data: Seq<DataElement>)
    requires
        data.len() <= usize::MAX,
    ensures
        forall|j: int| 0 <= j < plan_of(data).len() ==> (#[trigger] plan_of(data)[j]).record < data.len(),
    decreases data.len(),
{
    if data.len() > 0 {
        lemma_plan_records_bounded(data.drop_last());
        let p = plan_of(data.drop_last());
        let c = record_calls(data.len() - 1, data.last());
        assert forall|j: int| 0 <= j < plan_of(data).len() implies (#[trigger] plan_of(data)[j]).record
            < data.len() by {
            if j >= p.len() {
                assert(plan_of(data)[j] == c[j - p.len()]);
            } else {
                assert(plan_of(data)[j] == p[j]);
            }
        }
    }
}

/// The plan of the first `n` orders begins the plan of all of them, and what
/// follows it belongs to orders from position `n` on.
pub proof fn lemma_plan_prefix(data: Seq<DataElement>, n: int)
    requires
        0 <= n <= data.len(),
        data.len() <= usize::MAX,
    ensures
        plan_of(data.take(n)).len() <= plan_of(data).len(),
        plan_of(data).subrange(0, plan_of(data.take(n)).len() as int) == plan_of(data.take(n)),
        forall|j: int|
            plan_of(data.take(n)).len() <= j < plan_of(data).len() ==> (#[trigger] plan_of(data)[j]).record
                >= n,
    decreases data.len(),
{
    if n == data.len() {
        assert(data.take(n) =~= data);
        assert(plan_of(data).subrange(0, plan_of(data).len() as int) =~= plan_of(data));
    } else {
        let d = data.drop_last();
        lemma_plan_prefix(d, n);
        assert(d.take(n) =~= data.take(n));
        let p = plan_of(d);
        let c = record_calls(data.len() - 1, data.last());
        assert(plan_of(data) == p + c);
        assert(plan_of(data).subrange(0, plan_of(data.take(n)).len() as int) =~= plan_of(data.take(n)));
        assert forall|j: int|
            plan_of(data.take(n)).len() <= j < plan_of(data).len() implies (#[trigger] plan_of(
            data,
        )[j]).record >= n by {
            if j >= p.len() {
                assert(plan_of(data)[j] == c[j - p.len()]);
            } else {
                assert(plan_of(data)[j] == p[j]);
            }
        }
    }
}

/// The deletions of the order at position `k` stand together in the plan,
/// exactly as `record_calls` gives them, starting where the deletions of the
/// orders before it end; no other deletion of the plan belongs to that order.
pub proof fn lemma_record_deletions(data: Seq<DataElement>, k: int)
    requires
        0 <= k < data.len(),
        data.len() <= usize::MAX,
    ensures
        ({
            let plan = plan_of(data);
            let o = plan_of(data.take(k)).len() as int;
            let calls = record_calls(k, data[k]);
            &&& o + calls.len() <= plan.len()
            &&& plan.subrange(o, o + calls.len()) == calls
            &&& forall|j: int| 0 <= j < plan.len() && (#[trigger] plan[j]).record == k ==> o <= j < o + calls.len()
        }),
{
    let plan = plan_of(data);
    let o = plan_of(data.take(k)).len() as int;
    let calls = record_calls(k, data[k]);
    let t = data.take(k + 1);
    assert(t.drop_last() =~= data.take(k));
    assert(t.last() == data[k]);
    assert(plan_of(t) == plan_of(data.take(k)) + calls);
    lemma_plan_prefix(data, k + 1);
    lemma_plan_prefix(data, k);
    lemma_plan_records_bounded(data.take(k));
    assert(plan.subrange(o, o + calls.len()) =~= plan.subrange(0, plan_of(t).len() as int).subrange(
        o,
        o + calls.len(),
    ));
    assert(plan.subrange(o, o + calls.len()) =~= calls);
    assert forall|j: int| 0 <= j < plan.len() && (#[trigger] plan[j]).record == k implies o <= j < o
        + calls.len() by {
        if j < o {
            assert(plan[j] == plan.subrange(0, o)[j]);
            assert(plan_of(data.take(k))[j].record < k);
        }
    }
}

/// An order without a cart reference is deleted in the content API only:
/// no deletion in the commerce platform belongs to it.
pub proof fn lemma_no_reference_no_secondary(data: Seq<DataElement>, k: int)
    requires
        0 <= k < data.len(),
        data.len() <= usize::MAX,
        data[k].attributes.cart_reference is None,
    ensures
        forall|j: int|
            0 <= j < plan_of(data).len() && (#[trigger] plan_of(data)[j]).record == k
                ==> plan_of(data)[j].target == DeleteTarget::Primary(data[k].id),
{
    lemma_record_deletions(data, k);
    let plan = plan_of(data);
    let o = plan_of(data.take(k)).len() as int;
    assert forall|j: int| 0 <= j < plan.len() && (#[trigger] plan[j]).record == k implies plan[j].target
        == DeleteTarget::Primary(data[k].id) by {
        assert(plan[j] == plan.subrange(o, o + 1)[j - o]);
    }
}

/// An order with a cart reference is deleted in the commerce platform by that
/// reference and then, right after, in the content API by its identifier;
/// the plan is fixed before any deletion runs, so the second deletion is made
/// whatever the first returned.
pub proof fn lemma_reference_secondary_then_primary(data: Seq<DataElement>, k: int)
    requires
        0 <= k < data.len(),
        data.len() <= usize::MAX,
        data[k].attributes.cart_reference is Some,
    ensures
        ({
            let plan = plan_of(data);
            let o = plan_of(data.take(k)).len() as int;
            &&& o + 1 < plan.len()
            &&& plan[o] == DeleteCall {
                record: k as usize,
                target: DeleteTarget::Secondary(data[k].attributes.cart_reference->Some_0),
            }
            &&& plan[o + 1] == DeleteCall { record: k as usize, target: DeleteTarget::Primary(data[k].id) }
        }),
{
    lemma_record_deletions(data, k);
    let plan = plan_of(data);
    let o = plan_of(data.take(k)).len() as int;
    assert(plan[o] == plan.subrange(o, o + 2)[0]);
    assert(plan[o + 1] == plan.subrange(o, o + 2)[1]);
}

} // verus!
