//! Pagination descriptors and the page-button row computed from them.
use vstd::prelude::*;

verus! {

/// Totals of a result page.
#[derive(Clone, Copy, Debug, PartialEq, Eq, Structural)]
pub struct PaginationItems {
    pub count: i32,
    pub total: i32,
    pub per_page: i32,
}

/// The pagination descriptor a result page carries.
#[derive(Clone, Copy, Debug, PartialEq, Eq, Structural)]
pub struct PaginationObj {
    pub last_visible_page: i32,
    pub has_next_page: bool,
    pub current_page: u32,
    pub items: PaginationItems,
}

/// One button of the page-button row.
#[derive(Clone, Copy, Debug, PartialEq, Eq, Structural)]
pub struct PageButton {
    pub page: u32,
    pub selected: bool,
}

/// The number of buttons shown for a descriptor: none when only one page
/// exists (or the page count is degenerate), one per page otherwise.
pub open spec fn button_count(last_visible_page: i32) -> int {
    if last_visible_page <= 1 {
        0
    } else {
        last_visible_page as int
    }
}

/// Computes the page-button row: one button per page, in increasing page
/// order starting from one, with exactly the current page marked selected.
/// A single-page result shows no buttons at all.
pub fn page_buttons(v: &PaginationObj, cur_page: u32) -> (r: Vec<PageButton>)
    ensures
        r@.len() == button_count(v.last_visible_page),
        forall|i: int| 0 <= i < r@.len() ==> (#[trigger] r@[i]).page == i + 1,
        forall|i: int| 0 <= i < r@.len() ==> ((#[trigger] r@[i]).selected <==> i + 1 == cur_page),
        forall|i: int, j: int| 0 <= i < j < r@.len() ==> (#[trigger] r@[i]).page < (#[trigger] r@[j]).page,
{
    let mut r: Vec<PageButton> = Vec::new();
    let last = v.last_visible_page;
    if last <= 1 {
        return r;
    }
    let mut n: i64 = 1;
    let last_wide: i64 = last as i64;
    while n <= last_wide
        invariant
            1 < last,
            last_wide == last,
            1 <= n <= last_wide + 1,
            r@.len() == n - 1,
            forall|i: int| 0 <= i < r@.len() ==> (#[trigger] r@[i]).page == i + 1,
            forall|i: int| 0 <= i < r@.len() ==> ((#[trigger] r@[i]).selected <==> i + 1
                == cur_page),
        decreases last_wide + 1 - n,
    {
        r.push(PageButton { page: n as u32, selected: n as u32 == cur_page });
        n = n + 1;
    }
    r
}

} // verus!
