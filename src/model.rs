//! The listing envelope returned by the content API, and the result of one
//! page task.

use vstd::prelude::*;

verus! {

/// Pagination metadata of one listing response.
#[derive(Debug, Clone, Copy, PartialEq, Eq, Structural)]
pub struct Pagination {
    pub page: i32,
    pub page_size: i32,
    pub page_count: i32,
    pub total: i32,
}

/// The `meta` part of a listing response.
#[derive(Debug, Clone, Copy, PartialEq, Eq, Structural)]
pub struct Meta {
    pub pagination: Pagination,
}

/// One listed order: its identifier and its attributes.
#[derive(Debug, Clone)]
pub struct DataElement {
    pub id: i32,
    pub attributes: DataAtribute,
}

/// The attributes of a listed order: the optional reference to the matching
/// order in the commerce platform.
#[derive(Debug, Clone)]
pub struct DataAtribute {
    pub cart_reference: Option<String>,
}

/// One listing response: the orders of a page and the pagination metadata.
#[derive(Debug, Clone)]
pub struct Root {
    pub data: Vec<DataElement>,
    pub meta: Meta,
}

/// What a page task hands back: how many orders it attempted, and its page.
#[derive(Debug, Clone, Copy, PartialEq, Eq, Structural)]
pub struct PageResult {
    pub processed_count: usize,
    pub page_number: i32,
}

/// `ceil(total / page_size)` for a positive page size and a non-negative total.
pub open spec fn ceil_div(total: int, page_size: int) -> int {
    (total + page_size - 1) / page_size
}

impl Pagination {
    /// Pagination metadata as the listing API describes it: a positive page
    /// size, a non-negative total, and as many pages as the total fills.
    pub open spec fn well_formed(&self) -> bool {
        &&& self.page_size > 0
        &&& self.total >= 0
        &&& self.page_count == ceil_div(self.total as int, self.page_size as int)
    }
}

} // verus!
