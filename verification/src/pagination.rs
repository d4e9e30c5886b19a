//! Pagination arithmetic for list pages.

use vstd::prelude::*;

verus! {

/// Query-string paging parameters, both optional.
#[derive(Debug)]
pub struct PageQuery {
    /// Requested page, first page when absent or not positive.
    pub page: Option<i64>,
    /// Requested page size, defaulted and clamped to a sane range.
    pub per_page: Option<i64>,
}

/// Paging summary shown beside a result list.
#[derive(Clone, Copy, Debug, PartialEq, Eq)]
pub struct Pagination {
    pub current_page: i64,
    pub per_page: i64,
    pub total: i64,
    pub total_pages: i64,
    pub has_prev: bool,
    pub has_next: bool,
}

/// The page a query asks for: its own when positive, else the first.
pub open spec fn spec_page(page: Option<i64>) -> int {
    match page {
        Some(p) => if p > 0 {
            p as int
        } else {
            1
        },
        None => 1,
    }
}

/// The page size a query asks for, defaulted to 12 and clamped to 1..=100.
pub open spec fn spec_per_page(per_page: Option<i64>) -> int {
    match per_page {
        Some(p) => if p < 1 {
            1
        } else if p > 100 {
            100
        } else {
            p as int
        },
        None => 12,
    }
}

/// How many pages `total` records fill at `per_page` a page, rounding up;
/// none when the page size is zero.
pub open spec fn spec_total_pages(total: int, per_page: int) -> int {
    if per_page == 0 {
        0
    } else {
        (total + per_page - 1) / per_page
    }
}

impl PageQuery {
    /// The requested page; any page below one counts as the first.
    pub fn get_page(&self) -> (p: i64)
        ensures
            p == spec_page(self.page),
    {
        match self.page {
            Some(p) => if p > 0 {
                p
            } else {
                1
            },
            None => 1,
        }
    }

    /// The requested page size, kept within 1..=100 and defaulted to 12.
    pub fn get_per_page(&self) -> (p: i64)
        ensures
            p == spec_per_page(self.per_page),
    {
        match self.per_page {
            Some(p) => if p < 1 {
                1
            } else if p > 100 {
                100
            } else {
                p
            },
            None => 12,
        }
    }

    /// How many records precede the requested page.
    pub fn get_offset(&self) -> (o: i64)
        requires
            (spec_page(self.page) - 1) * spec_per_page(self.per_page) <= i64::MAX,
        ensures
            o == (spec_page(self.page) - 1) * spec_per_page(self.per_page),
    {
        let page = self.get_page();
        let per_page = self.get_per_page();
        proof {
            assert((page - 1) * per_page >= 0) by (nonlinear_arith)
                requires
                    page >= 1,
                    per_page >= 1,
            ;
        }
        (page - 1) * per_page
    }
}

/// Builds the paging summary for `total` records viewed `per_page` at a time
/// from page `page`.
pub fn create_pagination(page: i64, per_page: i64, total: i64) -> (r: Pagination)
    requires
        per_page >= 0,
        total >= 0,
        total + per_page <= i64::MAX,
    ensures
        r.current_page == page,
        r.per_page == per_page,
        r.total == total,
        r.total_pages == spec_total_pages(total as int, per_page as int),
        r.has_prev == (page > 1),
        r.has_next == (page < r.total_pages),
{
    let total_pages = if per_page == 0 {
        0
    } else {
        (total + per_page - 1) / per_page
    };
    Pagination {
        current_page: page,
        per_page,
        total,
        total_pages,
        has_prev: page > 1,
        has_next: page < total_pages,
    }
}

/// The first and last ordinal of the records shown on `page` when it holds
/// `current_count` of them.
pub fn calculate_display_range(page: i64, per_page: i64, current_count: usize) -> (r: (i64, i64))
    requires
        page >= 1,
        per_page >= 0,
        (page - 1) * per_page + 1 + current_count <= i64::MAX,
    ensures
        r.0 == (page - 1) * per_page + 1,
        r.1 == r.0 - 1 + current_count,
{
    proof {
        assert((page - 1) * per_page >= 0) by (nonlinear_arith)
            requires
                page >= 1,
                per_page >= 0,
        ;
    }
    let start_item = (page - 1) * per_page + 1;
    let end_item = start_item - 1 + (current_count as i64);
    (start_item, end_item)
}

} // verus!
