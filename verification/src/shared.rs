//! Query options of the listing endpoints, row counts, and the page window
//! that a listing reads.

use vstd::prelude::*;

verus! {

/// Paging options of a listing: the page, counted from 1, and its size.
#[derive(Debug, PartialEq, Eq)]
pub struct FilterOptions {
    pub page: Option<usize>,
    pub limit: Option<usize>,
}

/// A row count.
#[derive(Debug, PartialEq, Eq)]
pub struct Count {
    pub count: Option<i64>,
}

/// Options of the firm search and of the listings by city and category.
#[derive(Debug, PartialEq, Eq)]
pub struct FilterExtOptions {
    pub input: Option<String>,
    pub city_id: Option<String>,
    pub category_id: Option<String>,
    pub page: Option<usize>,
    pub limit: Option<usize>,
}

/// The rows a listing reads: `limit` of them, after skipping `offset`.
#[derive(Debug, Clone, Copy, PartialEq, Eq)]
pub struct PageWindow {
    pub limit: usize,
    pub offset: usize,
}

/// The page size when none is given.
pub const DEFAULT_LIMIT: usize = 10;

/// The page size that a listing uses.
pub open spec fn limit_of(limit: Option<usize>) -> int {
    match limit {
        Some(l) => l as int,
        None => DEFAULT_LIMIT as int,
    }
}

/// The page that a listing shows, counted from 1.
pub open spec fn page_of(page: Option<usize>) -> int {
    match page {
        Some(p) => p as int,
        None => 1,
    }
}

/// The window for the given page and page size: pages count from 1, the
/// default page is the first and the default size is 10. Page 0, and a
/// window whose offset does not fit in a `usize`, have none.
pub fn page_window(page: Option<usize>, limit: Option<usize>) -> (w: Option<PageWindow>)
    ensures
        w is None <==> page_of(page) < 1 || (page_of(page) - 1) * limit_of(limit) > usize::MAX,
        w matches Some(win) ==> win.limit == limit_of(limit) && win.offset == (page_of(page) - 1)
            * limit_of(limit),
{
    let l: usize = match limit {
        Some(l) => l,
        None => DEFAULT_LIMIT,
    };
    let p: usize = match page {
        Some(p) => p,
        None => 1,
    };
    if p < 1 {
        return None;
    }
    match (p - 1).checked_mul(l) {
        Some(offset) => Some(PageWindow { limit: l, offset }),
        None => None,
    }
}

impl FilterOptions {
    /// The window of this listing (see `page_window`).
    pub fn window(&self) -> (w: Option<PageWindow>)
        ensures
            w == page_window_spec(self.page, self.limit),
    {
        page_window(self.page, self.limit)
    }
}

impl FilterExtOptions {
    /// The window of this listing (see `page_window`).
    pub fn window(&self) -> (w: Option<PageWindow>)
        ensures
            w == page_window_spec(self.page, self.limit),
    {
        page_window(self.page, self.limit)
    }
}

/// The window for the given page and page size, as `page_window` computes it.
pub open spec fn page_window_spec(page: Option<usize>, limit: Option<usize>) -> Option<PageWindow> {
    if page_of(page) < 1 || (page_of(page) - 1) * limit_of(limit) > usize::MAX {
        None
    } else {
        Some(PageWindow {
            limit: limit_of(limit) as usize,
            offset: ((page_of(page) - 1) * limit_of(limit)) as usize,
        })
    }
}

} // verus!
