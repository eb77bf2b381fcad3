//! Pagination state: total result count, current window offset, and the
//! materialized items of the current window, together with all derived
//! navigation queries (page counts, next/previous offsets, item ranges).

use vstd::prelude::*;
use vstd::arithmetic::div_mod::lemma_div_is_ordered;
use vstd::arithmetic::div_mod::lemma_fundamental_div_mod;
use crate::utils::dec_str;
use crate::utils::u64_to_string;

verus! {

/// One search hit as displayed: a selection flag, display texts, a quality
/// label and the resolved playable URL.
#[derive(Clone, Debug, PartialEq)]
pub struct SearchItem {
    pub selected: bool,
    pub title: String,
    pub topic: String,
    pub timestamp: String,
    pub duration: String,
    pub quality: String,
    pub video_url: String,
}

/// The current view of a larger, unmaterialized result set: how many results
/// match the last query in total, where the current window starts, and the
/// items of the current window (at most `PAGE_SIZE` of them).
///
/// `total` and `offset` are independent fields; keeping them consistent
/// (`offset <= total`, checked by `is_valid`) is the caller's business.
pub struct Pagination {
    pub total: usize,
    pub offset: usize,
    pub items: Vec<SearchItem>,
}

/// Number of pages needed for `total` items: the ceiling of `total / 15`,
/// with an empty result set having zero pages, not one empty page.
pub open spec fn spec_total_pages(total: int) -> int {
    if total == 0 {
        0
    } else {
        (total + 14) / 15
    }
}

/// Whether a further full or partial page lies beyond the current window.
pub open spec fn spec_has_next_page(total: int, offset: int) -> bool {
    offset + 15 < total
}

/// The 1-indexed page number of the window starting at `offset`.
pub open spec fn spec_current_page(offset: int) -> int {
    if offset == 0 {
        1
    } else {
        offset / 15 + 1
    }
}

/// The offset one page forward, if it still lies inside the result set.
pub open spec fn spec_next_offset(total: int, offset: int) -> Option<int> {
    if offset + 15 < total {
        Some(offset + 15)
    } else {
        None
    }
}

/// The offset one page width back (saturating at zero), if the window is not
/// already at the start.
pub open spec fn spec_previous_offset(offset: int) -> Option<int> {
    if offset > 0 {
        Some(if offset >= 15 { offset - 15 } else { 0 })
    } else {
        None
    }
}

/// How many of the `total` items fall into the window starting at `offset`.
pub open spec fn spec_items_on_page(total: int, offset: int) -> int {
    vstd::math::min(15, total - offset)
}

/// The half-open range of absolute item indices covered by the window.
pub open spec fn spec_item_range(total: int, offset: int) -> (int, int) {
    (offset, vstd::math::min(offset + 15, total))
}

/// The status line shown for a window: the 1-indexed current page, the page
/// count, and the 1-indexed positions of the window's first and last items.
/// An empty result set reads `"Page 1/0 (Items 1-0 of 0)"`.
pub open spec fn spec_info(total: int, offset: int) -> Seq<char> {
    "Page "@ + dec_str(spec_current_page(offset) as nat) + "/"@ + dec_str(
        spec_total_pages(total) as nat,
    ) + " (Items "@ + dec_str((offset + 1) as nat) + "-"@ + dec_str(
        (offset + spec_items_on_page(total, offset)) as nat,
    ) + " of "@ + dec_str(total as nat) + ")"@
}

impl Pagination {
    /// Creates a new Pagination instance with default values.
    pub fn new() -> (r: Self)
        ensures
            r.total == 0,
            r.offset == 0,
            r.items@.len() == 0,
    {
        Pagination { total: 0, offset: 0, items: Vec::new() }
    }

    /// Gets the fixed page size.
    pub fn page_size(&self) -> (r: usize)
        ensures
            r == crate::PAGE_SIZE,
    {
        15
    }

    /// Calculates the total number of pages: zero when there are no results,
    /// otherwise the smallest page count whose pages hold all results.
    pub fn total_pages(&self) -> (r: usize)
        ensures
            r == spec_total_pages(self.total as int),
            r == 0 <==> self.total == 0,
            self.total > 0 ==> 15 * (r - 1) < self.total <= 15 * r,
    {
        proof {
            if self.total > 0 {
                lemma_fundamental_div_mod(self.total as int + 14, 15);
                lemma_fundamental_div_mod(self.total as int - 1, 15);
            }
        }
        if self.total == 0 {
            0
        } else {
            (self.total - 1) / 15 + 1
        }
    }

    /// Checks if there is a next page: false exactly when the window
    /// already reaches the end of the result set.
    pub fn has_next_page(&self) -> (r: bool)
        ensures
            r == spec_has_next_page(self.total as int, self.offset as int),
            r <==> self.offset + 15 < self.total,
    {
        self.offset < self.total && self.total - self.offset > 15
    }

    /// Checks if there is a previous page.
    pub fn has_previous_page(&self) -> (r: bool)
        ensures
            r <==> self.offset > 0,
    {
        self.offset > 0
    }

    /// Gets the current page number (1-indexed).
    pub fn current_page(&self) -> (r: usize)
        ensures
            r == spec_current_page(self.offset as int),
    {
        if self.offset == 0 {
            1
        } else {
            (self.offset / 15) + 1
        }
    }

    /// Gets the offset of the next page, if one exists.
    pub fn next_offset(&self) -> (r: Option<usize>)
        ensures
            r matches Some(v) ==> v == self.offset + 15,
            r is Some <==> self.offset + 15 < self.total,
    {
        if self.offset < self.total && self.total - self.offset > 15 {
            Some(self.offset + 15)
        } else {
            None
        }
    }

    /// Gets the offset of the previous page, stepping back by exactly one
    /// page width and saturating at zero, if the window is not at the start.
    pub fn previous_offset(&self) -> (r: Option<usize>)
        ensures
            r matches Some(v) ==> v == if self.offset >= 15 { self.offset - 15 } else { 0 },
            r is Some <==> self.offset > 0,
    {
        if self.offset > 0 {
            if self.offset >= 15 {
                Some(self.offset - 15)
            } else {
                Some(0)
            }
        } else {
            None
        }
    }

    /// Gets the number of items on the current page. The window must not
    /// start past the end of the result set.
    pub fn items_on_page(&self) -> (r: usize)
        requires
            self.offset <= self.total,
        ensures
            r == spec_items_on_page(self.total as int, self.offset as int),
    {
        let remaining = self.total - self.offset;
        if remaining >= 15 {
            15
        } else {
            remaining
        }
    }

    /// Checks if the pagination is valid (offset is within bounds).
    pub fn is_valid(&self) -> (r: bool)
        ensures
            r <==> self.offset <= self.total,
    {
        self.offset <= self.total
    }

    /// Gets the half-open range of absolute item indices covered by the
    /// current page.
    pub fn item_range(&self) -> (r: (usize, usize))
        ensures
            r.0 == spec_item_range(self.total as int, self.offset as int).0,
            r.1 == spec_item_range(self.total as int, self.offset as int).1,
    {
        let end = if self.offset <= self.total {
            if self.total - self.offset >= 15 {
                self.offset + 15
            } else {
                self.total
            }
        } else {
            self.total
        };
        (self.offset, end)
    }

    /// Gets pagination info as a string. The window must not start past the
    /// end of the result set, and the first item's 1-indexed position must
    /// be representable.
    pub fn info(&self) -> (s: String)
        requires
            self.offset <= self.total,
            self.offset < usize::MAX,
        ensures
            s@ == spec_info(self.total as int, self.offset as int),
    {
        let page = u64_to_string(self.current_page() as u64);
        let pages = u64_to_string(self.total_pages() as u64);
        let first = u64_to_string(self.offset as u64 + 1);
        let last = u64_to_string(self.offset as u64 + self.items_on_page() as u64);
        let total = u64_to_string(self.total as u64);
        let s = String::from_str("Page ").concat(page.as_str()).concat("/").concat(
            pages.as_str(),
        ).concat(" (Items ").concat(first.as_str()).concat("-").concat(last.as_str()).concat(
            " of ",
        ).concat(total.as_str()).concat(")");
        proof {
            assert(s@ =~= spec_info(self.total as int, self.offset as int));
        }
        s
    }
}

/// Law: for any valid window, the covered item range runs from `offset` to
/// `min(offset + 15, total)`, and the number of items on the page is exactly
/// the width of that range.
pub proof fn lemma_window_range(total: int, offset: int)
    requires
        0 <= offset <= total,
    ensures
        spec_item_range(total, offset) == (offset, vstd::math::min(offset + 15, total)),
        spec_items_on_page(total, offset) == spec_item_range(total, offset).1 - spec_item_range(
            total,
            offset,
        ).0,
{
}

/// Law: the current page number never decreases as the offset grows; in
/// particular it is monotone under forward steps of one page width.
pub proof fn lemma_current_page_monotone(offset1: int, offset2: int)
    requires
        0 <= offset1 <= offset2,
    ensures
        spec_current_page(offset1) <= spec_current_page(offset2),
{
    if offset1 > 0 {
        lemma_div_is_ordered(offset1, offset2, 15);
    } else if offset2 > 0 {
        lemma_div_is_ordered(0, offset2, 15);
    }
}

/// Law: from any page-aligned window with a next page, stepping one page
/// forward and then one page back returns to the original offset.
pub proof fn lemma_offset_round_trip(total: int, offset: int)
    requires
        0 <= offset,
        offset % 15 == 0,
        offset + 15 < total,
    ensures
        spec_next_offset(total, offset) == Some(offset + 15),
        spec_previous_offset(offset + 15) == Some(offset),
{
}

} // verus!
