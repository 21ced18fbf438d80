//! The pagination envelope list endpoints answer with, and the query
//! parameters they accept, with their defaults.
use vstd::prelude::*;

verus! {

/// One page of items, with the totals a client needs to page further.
#[derive(Debug)]
pub struct PaginatedResponse<T> {
    pub items: Vec<T>,
    pub total: i64,
    pub page: i64,
    pub page_size: i64,
}

/// The paging query parameters; absent ones take the defaults below.
#[derive(Debug, Clone, Copy, PartialEq, Eq, Structural)]
pub struct PaginationParams {
    pub page: i64,
    pub page_size: i64,
}

/// The first page.
pub fn default_page() -> (r: i64)
    ensures
        r == 1,
{
    1
}

/// The page size used when the query names none.
pub fn default_page_size() -> (r: i64)
    ensures
        r == 25,
{
    25
}

} // verus!
