//! Showing a long list page by page.

use vstd::prelude::*;
use vstd::slice::slice_subrange;

verus! {

/// The number of records on a full page.
pub const RECORDS_PER_PAGE: usize = 20;

/// Where the page `current_page` of a list of `len` records ends.
pub open spec fn page_end(len: int, current_page: int) -> int {
    if current_page * 20 + 20 <= len {
        current_page * 20 + 20
    } else {
        len
    }
}

/// The number of pages that `len` records fill: the last may be short.
pub open spec fn pages_of(len: int) -> int {
    (len + 19) / 20
}

/// The records of the page `current_page`, pages counted from 0: twenty
/// where the list has as many left, else what is left. A page that starts
/// behind the end of the list has no records to show and cannot be asked for.
pub fn get_paginated_records<T>(records: &[T], current_page: usize) -> (page: &[T])
    requires
        current_page * 20 <= records@.len(),
    ensures
        page@ == records@.subrange(current_page * 20, page_end(records@.len() as int, current_page as int)),
{
    let len = records.len();
    let start_index = current_page * RECORDS_PER_PAGE;
    let end_index = if len - start_index >= RECORDS_PER_PAGE {
        start_index + RECORDS_PER_PAGE
    } else {
        len
    };
    slice_subrange(records, start_index, end_index)
}

/// The number of pages that `len` records fill.
pub fn total_pages(len: usize) -> (pages: usize)
    ensures
        pages == pages_of(len as int),
{
    if len % RECORDS_PER_PAGE == 0 {
        len / RECORDS_PER_PAGE
    } else {
        len / RECORDS_PER_PAGE + 1
    }
}

/// Whether the page `current_page` of a list of `len` records can be shown.
pub fn has_page(len: usize, current_page: usize) -> (r: bool)
    ensures
        r == (current_page * 20 <= len),
{
    current_page <= len / RECORDS_PER_PAGE
}

/// The page after `page` of `total_pages`: the first after the last.
pub fn next_page(page: usize, total_pages: usize) -> (next: usize)
    ensures
        next == if page + 1 >= total_pages {
            0
        } else {
            page + 1
        },
{
    if page >= total_pages || page + 1 >= total_pages {
        0
    } else {
        page + 1
    }
}

/// The page before `page` of `total_pages`: the last before the first.
pub fn previous_page(page: usize, total_pages: usize) -> (previous: usize)
    requires
        total_pages > 0,
    ensures
        previous == if page == 0 {
            total_pages - 1
        } else {
            page - 1
        },
{
    if page == 0 {
        total_pages - 1
    } else {
        page - 1
    }
}

/// Every page below the number of pages can be shown, and none of them is empty.
pub proof fn lemma_pages_are_not_empty(len: int, page: int)
    requires
        0 <= page < pages_of(len),
        0 <= len,
    ensures
        page * 20 < len,
        page * 20 < page_end(len, page) <= len,
{
}

} // verus!
