//! Viewport allocation: which expirations are drawn, and how tall each box is.
use vstd::prelude::*;

use crate::nav::{App, AppView};

verus! {

/// Height of a collapsed expiration: its border and its header line.
pub const COLLAPSED_HEIGHT: u64 = 3;

/// Lines an expanded expiration needs beyond one per option pair: the box,
/// the table header and its padding.
pub const EXPANDED_EXTRA: u64 = 5;

/// Minimum height of one expiration box, capped at the largest `u64`.
pub open spec fn item_height(expanded: bool, rows: usize) -> u64 {
    if !expanded {
        COLLAPSED_HEIGHT
    } else if rows + EXPANDED_EXTRA > u64::MAX {
        u64::MAX
    } else {
        (rows + EXPANDED_EXTRA) as u64
    }
}

/// Sum of all heights.
pub open spec fn total(s: Seq<u64>) -> int
    decreases s.len(),
{
    if s.len() == 0 {
        0
    } else {
        total(s.drop_last()) + s.last()
    }
}

/// Heights given to the items: their minimums, the last one enlarged by
/// whatever is left of `area` when the minimums do not fill it.
pub open spec fn allocated(mins: Seq<u64>, area: nat) -> Seq<u64> {
    if mins.len() > 0 && total(mins) < area {
        mins.update(mins.len() - 1, (mins.last() + (area - total(mins))) as u64)
    } else {
        mins
    }
}

/// One past the last expiration drawn in an area `area` lines tall.
/// The scrolling list shows at most `area` items from the scroll offset; the
/// tabbed view shows the selected one alone.
pub open spec fn visible_end(v: AppView, area: nat) -> nat {
    let span: nat = if v.variant == crate::nav::Variant::Tabs { 1 } else { area };
    if v.scroll + span < v.len() {
        v.scroll + span
    } else {
        v.len()
    }
}

/// Minimum heights of the expirations drawn in an area `area` lines tall.
pub open spec fn visible_min_heights(v: AppView, area: nat) -> Seq<u64> {
    Seq::new(
        (visible_end(v, area) - v.scroll) as nat,
        |k: int| item_height(v.expanded[v.scroll + k], v.rows[v.scroll + k]),
    )
}

pub proof fn lemma_total_nonneg(s: Seq<u64>)
    ensures
        total(s) >= 0,
        s.len() > 0 ==> total(s) >= s.last(),
    decreases s.len(),
{
    if s.len() > 0 {
        lemma_total_nonneg(s.drop_last());
    }
}

/// Changing the last height changes the sum by as much.
pub proof fn lemma_total_update_last(s: Seq<u64>, v: u64)
    requires
        s.len() > 0,
    ensures
        total(s.update(s.len() - 1, v)) == total(s) - s.last() + v,
{
    assert(s.update(s.len() - 1, v).drop_last() =~= s.drop_last());
}

/// Minimum height of one expiration box: `COLLAPSED_HEIGHT` when collapsed,
/// else one line per option pair plus `EXPANDED_EXTRA`.
pub fn item_min_height(expanded: bool, rows: usize) -> (r: u64)
    ensures
        r == item_height(expanded, rows),
        r >= COLLAPSED_HEIGHT,
{
    if expanded {
        (rows as u64).saturating_add(EXPANDED_EXTRA)
    } else {
        COLLAPSED_HEIGHT
    }
}

/// Gives each item its minimum height and the last one all the room that
/// the minimums leave in an area `area_height` lines tall. Where the
/// minimums fill the area or more, they are kept as they are.
pub fn allocate_heights(mins: &Vec<u64>, area_height: u16) -> (r: Vec<u64>)
    ensures
        r@ == allocated(mins@, area_height as nat),
        r.len() == mins.len(),
        total(mins@) >= area_height ==> r@ == mins@,
        mins.len() > 0 && total(mins@) < area_height ==> total(r@) == area_height,
        forall|k: int| 0 <= k < r.len() ==> r@[k] >= mins@[k],
{
    let mut sum: u64 = 0;
    let mut i: usize = 0;
    while i < mins.len()
        invariant
            i <= mins.len(),
            sum == (if total(mins@.take(i as int)) > u64::MAX {
                u64::MAX as int
            } else {
                total(mins@.take(i as int))
            }),
        decreases mins.len() - i,
    {
        assert(mins@.take(i + 1).drop_last() =~= mins@.take(i as int));
        proof {
            lemma_total_nonneg(mins@.take(i as int));
        }
        sum = sum.saturating_add(mins[i]);
        i = i + 1;
    }
    assert(mins@.take(mins.len() as int) =~= mins@);
    let mut r = mins.clone();
    let n = r.len();
    if n > 0 && sum < area_height as u64 {
        proof {
            lemma_total_nonneg(mins@);
            lemma_total_update_last(mins@, (mins@.last() + (area_height - total(mins@))) as u64);
        }
        let last = r[n - 1];
        r.set(n - 1, last + (area_height as u64 - sum));
    }
    assert(r@ =~= allocated(mins@, area_height as nat));
    r
}

/// What is drawn of the expiration list: items `start..end`, their box
/// heights, and whether the list extends beyond them.
pub struct Viewport {
    pub start: usize,
    pub end: usize,
    pub heights: Vec<u64>,
    pub clipped: bool,
}

impl App {
    /// The viewport for an area `area_height` lines tall.
    pub fn viewport(&self, area_height: u16) -> (r: Viewport)
        requires
            self.wf(),
        ensures
            r.start == self@.scroll,
            r.end == visible_end(self@, area_height as nat),
            r.heights@ == allocated(visible_min_heights(self@, area_height as nat), area_height as nat),
            r.clipped == (r.start > 0 || r.end < self@.len()),
            forall|k: int| 0 <= k < r.heights.len() ==> r.heights@[k] >= COLLAPSED_HEIGHT,
    {
        let n = self.expiration_count();
        let start = self.scroll_offset();
        let span: usize = match self.variant() {
            crate::nav::Variant::Tabs => 1,
            crate::nav::Variant::Scrolling => area_height as usize,
        };
        let end = if start < n && n - start > span {
            start + span
        } else {
            n
        };
        let ghost v = self@;
        let mut mins: Vec<u64> = Vec::new();
        let mut i: usize = start;
        while i < end
            invariant
                v == self@,
                v.wf(),
                start == v.scroll,
                n == v.len(),
                start <= i <= end <= n,
                mins@ =~= Seq::new(
                    (i - start) as nat,
                    |k: int| item_height(v.expanded[v.scroll + k], v.rows[v.scroll + k]),
                ),
            decreases end - i,
        {
            let h = item_min_height(self.is_expanded(i), self.option_count(i));
            mins.push(h);
            i = i + 1;
        }
        assert(end == visible_end(v, area_height as nat));
        let heights = allocate_heights(&mins, area_height);
        Viewport { start, end, heights, clipped: start > 0 || end < n }
    }
}

} // verus!
