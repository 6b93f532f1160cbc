//! The pagination driver: decides which page to fetch next from the
//! pagination metadata of the page just received. Pages are numbered from 1;
//! traversal is forward-only and finite, requesting `1, 2, ..., totalPages`
//! and nothing after.

use vstd::prelude::*;

verus! {

/// The cursor rule: after receiving a page that reports number `page` out of
/// `total_pages`, the next page to request is `page + 1`, unless `page` was
/// the last one.
pub open spec fn spec_next_cursor(page: u64, total_pages: u64) -> Option<u64> {
    if page < total_pages {
        Some((page + 1) as u64)
    } else {
        None
    }
}

/// Cursor-driven pagination state. `cursor` holds the next page number to
/// request, or `None` once the walk is over.
pub struct Paginator {
    pub cursor: Option<u64>,
}

impl Paginator {
    /// A fresh walk starts at page 1.
    pub fn new() -> (r: Paginator)
        ensures
            r.cursor == Some(1u64),
    {
        Paginator { cursor: Some(1u64) }
    }

    /// The page number to fetch next, or `None` when the walk is over.
    pub fn current(&self) -> (r: Option<u64>)
        ensures
            r == self.cursor,
    {
        self.cursor
    }

    /// Advance the cursor from the metadata of the page just fetched.
    pub fn advance(&mut self, page: u64, total_pages: u64)
        ensures
            final(self).cursor == spec_next_cursor(page, total_pages),
    {
        if page < total_pages {
            self.cursor = Some(page + 1);
        } else {
            self.cursor = None;
        }
    }
}

/// The cursor after `i` pulls of a walk over a feed of `k` pages, where
/// every fetched page reports the number it was requested under and
/// `total_pages == k`.
pub open spec fn spec_cursor_after(k: u64, i: nat) -> Option<u64>
    decreases i,
{
    if i == 0 {
        Some(1u64)
    } else {
        match spec_cursor_after(k, (i - 1) as nat) {
            None => None,
            Some(p) => spec_next_cursor(p, k),
        }
    }
}

/// The walk over a feed of `k` pages performs exactly `k` fetches and no
/// more: before each of the first `k` pulls the cursor requests page
/// `i + 1` — so pages `1, 2, ..., k` in order, none repeated — and from
/// the `k`-th pull on the cursor is exhausted, so no `k + 1`-th fetch
/// happens.
pub proof fn lemma_walk_requests(k: u64, i: nat)
    requires
        1 <= k,
    ensures
        i < k ==> spec_cursor_after(k, i) == Some((i + 1) as u64),
        i >= k ==> spec_cursor_after(k, i) is None,
    decreases i,
{
    if i > 0 {
        lemma_walk_requests(k, (i - 1) as nat);
    }
}

} // verus!
