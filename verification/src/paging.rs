//! The paging arithmetic of the task listing: page and limit
//! normalization, the row offset, and the page count.

use vstd::prelude::*;

verus! {

/// The page a listing starts from: the requested one, but never below
/// one; absent means the first.
pub open spec fn spec_normalize_page(page: Option<i32>) -> i32 {
    match page {
        None => 1,
        Some(p) => if p < 1 {
            1
        } else {
            p
        },
    }
}

pub fn normalize_page(page: Option<i32>) -> (r: i32)
    ensures
        r == spec_normalize_page(page),
        r >= 1,
{
    match page {
        None => 1,
        Some(p) => if p < 1 {
            1
        } else {
            p
        },
    }
}

/// The rows per page: the requested count clamped into one to a
/// hundred; absent means ten.
pub open spec fn spec_normalize_limit(limit: Option<i32>) -> i32 {
    match limit {
        None => 10,
        Some(l) => if l < 1 {
            1
        } else if l > 100 {
            100
        } else {
            l
        },
    }
}

pub fn normalize_limit(limit: Option<i32>) -> (r: i32)
    ensures
        r == spec_normalize_limit(limit),
        1 <= r <= 100,
{
    match limit {
        None => 10,
        Some(l) => if l < 1 {
            1
        } else if l > 100 {
            100
        } else {
            l
        },
    }
}

/// The rows skipped before a page: a full limit for every page before
/// it.
pub fn page_offset(page: i32, limit: i32) -> (r: i32)
    requires
        1 <= page,
        1 <= limit <= 100,
        (page - 1) * limit <= i32::MAX,
    ensures
        r == (page - 1) * limit,
{
    (page - 1) * limit
}

/// How many pages a count of rows fills: the count divided by the
/// limit, rounded up; zero rows means zero pages.
pub open spec fn spec_total_pages(total_count: i64, limit: i32) -> int
    recommends
        total_count >= 0,
        limit >= 1,
{
    if total_count == 0 {
        0int
    } else {
        (total_count - 1) / (limit as int) + 1
    }
}

pub fn total_pages(total_count: i64, limit: i32) -> (r: i32)
    requires
        0 <= total_count <= i32::MAX,
        1 <= limit <= 100,
    ensures
        r == spec_total_pages(total_count, limit),
{
    if total_count == 0 {
        return 0;
    }
    let l = limit as i64;
    let q = (total_count - 1) / l;
    proof {
        vstd::arithmetic::div_mod::lemma_div_is_ordered_by_denominator(
            total_count - 1,
            1,
            l as int,
        );
        vstd::arithmetic::div_mod::lemma_div_pos_is_pos(total_count - 1, l as int);
    }
    (q + 1) as i32
}

} // verus!
