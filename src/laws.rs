//! Properties of navigation, allocation and table layout, stated over the
//! models that the executable functions' contracts use.
use vstd::arithmetic::div_mod::{
    lemma_add_mod_noop_right, lemma_mod_add_multiples_vanish, lemma_mod_pos_bound, lemma_small_mod,
};
use vstd::prelude::*;

use crate::layout::{
    allocated, item_height, COLLAPSED_HEIGHT, lemma_total_nonneg, lemma_total_update_last, total, visible_end,
    visible_min_heights,
};
use crate::nav::{AppView, Key, VISIBLE_WINDOW};
use crate::table::{columns, is_greek_column, Column, Field};

verus! {

/// The state after pressing the down key `k` times.
pub open spec fn moved_down_times(v: AppView, k: nat) -> AppView
    decreases k,
{
    if k == 0 {
        v
    } else {
        moved_down_times(v, (k - 1) as nat).moved_down()
    }
}

/// The state after the key presses `keys`, in order.
pub open spec fn after_keys(v: AppView, keys: Seq<Key>) -> AppView
    decreases keys.len(),
{
    if keys.len() == 0 {
        v
    } else {
        after_keys(v, keys.drop_last()).after_key(keys.last())
    }
}

proof fn lemma_moved_down_times_cursor(v: AppView, k: nat)
    requires
        v.wf(),
        v.len() >= 1,
    ensures
        moved_down_times(v, k).rows == v.rows,
        moved_down_times(v, k).cursor == ((v.cursor + k) as int) % (v.len() as int),
    decreases k,
{
    let n = v.len() as int;
    if k == 0 {
        lemma_small_mod(v.cursor, v.len());
    } else {
        lemma_moved_down_times_cursor(v, (k - 1) as nat);
        lemma_add_mod_noop_right(1, v.cursor + k - 1, n);
    }
}

/// Pressing the down key as many times as there are expirations brings the
/// cursor back to where it started.
pub proof fn lemma_down_cycle(v: AppView)
    requires
        v.wf(),
        v.len() >= 1,
    ensures
        moved_down_times(v, v.len()).cursor == v.cursor,
{
    lemma_moved_down_times_cursor(v, v.len());
    lemma_mod_add_multiples_vanish(v.cursor as int, v.len() as int);
    lemma_small_mod(v.cursor, v.len());
}

/// The up key on the first expiration selects the last one.
pub proof fn lemma_up_wraps(v: AppView)
    requires
        v.wf(),
        v.len() >= 1,
        v.cursor == 0,
    ensures
        v.moved_up().cursor == v.len() - 1,
{
    lemma_small_mod((v.len() - 1) as nat, v.len());
}

/// Paging stops at the ends of the list instead of wrapping.
pub proof fn lemma_paging_clamps(v: AppView)
    requires
        v.wf(),
        v.len() >= 1,
    ensures
        v.paged_down().cursor <= v.len() - 1,
        v.paged_down().cursor >= v.cursor,
        v.paged_up().cursor <= v.cursor,
{
}

/// Every key keeps the state well formed.
pub proof fn lemma_key_keeps_wf(v: AppView, key: Key)
    requires
        v.wf(),
    ensures
        v.after_key(key).wf(),
{
    if v.len() > 0 {
        lemma_mod_pos_bound((v.cursor + 1) as int, v.len() as int);
        lemma_mod_pos_bound((v.cursor + v.len() - 1) as int, v.len() as int);
    }
}

/// After any sequence of key presses the cursor lies inside the scroll window.
pub proof fn lemma_keys_keep_cursor_in_window(v: AppView, keys: Seq<Key>)
    requires
        v.wf(),
    ensures
        after_keys(v, keys).wf(),
        after_keys(v, keys).scroll <= after_keys(v, keys).cursor,
        after_keys(v, keys).cursor <= after_keys(v, keys).scroll + VISIBLE_WINDOW - 1,
        after_keys(v, keys).len() > 0 ==> after_keys(v, keys).cursor < after_keys(v, keys).len(),
    decreases keys.len(),
{
    if keys.len() > 0 {
        lemma_keys_keep_cursor_in_window(v, keys.drop_last());
        lemma_key_keeps_wf(after_keys(v, keys.drop_last()), keys.last());
    }
}

/// Toggling the expanded flag twice restores it.
pub proof fn lemma_toggle_twice(v: AppView)
    requires
        v.wf(),
    ensures
        v.toggled_expand().toggled_expand() == v,
{
    assert(v.toggled_expand().toggled_expand().expanded =~= v.expanded);
}

/// On an empty chain every navigation key leaves the state as it is.
pub proof fn lemma_empty_chain(v: AppView)
    requires
        v.wf(),
        v.len() == 0,
    ensures
        v.moved_down() == v,
        v.moved_up() == v,
        v.paged_down() == v,
        v.paged_up() == v,
        v.toggled_expand() == v,
{
}

/// Where the minimum heights fill the area, nothing is added to them.
pub proof fn lemma_no_surplus(mins: Seq<u64>, area: u16)
    requires
        total(mins) >= area,
    ensures
        allocated(mins, area as nat) == mins,
{
}

/// Where the minimum heights leave room, the heights fill the area exactly
/// and only the last one grows.
pub proof fn lemma_surplus_to_last(mins: Seq<u64>, area: u16)
    requires
        mins.len() > 0,
        total(mins) < area,
    ensures
        allocated(mins, area as nat).len() == mins.len(),
        total(allocated(mins, area as nat)) == area,
        forall|k: int| 0 <= k < mins.len() - 1 ==> allocated(mins, area as nat)[k] == mins[k],
        allocated(mins, area as nat).last() == mins.last() + (area - total(mins)),
{
    lemma_total_nonneg(mins);
    lemma_total_update_last(mins, (mins.last() + (area - total(mins))) as u64);
}

/// Every drawn expiration box is at least as tall as a collapsed one.
pub proof fn lemma_heights_positive(v: AppView, area: u16)
    requires
        v.wf(),
    ensures
        forall|k: int|
            0 <= k < allocated(visible_min_heights(v, area as nat), area as nat).len()
                ==> allocated(visible_min_heights(v, area as nat), area as nat)[k] >= COLLAPSED_HEIGHT,
{
    let mins = visible_min_heights(v, area as nat);
    lemma_total_nonneg(mins);
    assert forall|k: int| 0 <= k < mins.len() implies mins[k] >= COLLAPSED_HEIGHT by {
        assert(item_height(v.expanded[v.scroll + k], v.rows[v.scroll + k]) >= COLLAPSED_HEIGHT);
    }
}

/// Hiding the greeks removes exactly the delta, gamma and vega columns of each
/// side, keeps the other columns in order, and leaves the drawn expirations
/// and their heights (so their row counts) as they were.
pub proof fn lemma_hiding_greeks(v: AppView, area: nat)
    ensures
        columns(false) == columns(true).filter(|c: Column| !is_greek_column(c)),
        columns(true).filter(|c: Column| is_greek_column(c)) == seq![
            Column::Call(Field::Delta),
            Column::Call(Field::Gamma),
            Column::Call(Field::Vega),
            Column::Put(Field::Delta),
            Column::Put(Field::Gamma),
            Column::Put(Field::Vega),
        ],
        columns(true).len() == columns(false).len() + 6,
        visible_end(v.toggled_greeks(), area) == visible_end(v, area),
        visible_min_heights(v.toggled_greeks(), area) == visible_min_heights(v, area),
{
    reveal_with_fuel(Seq::filter, 20);
    assert(columns(false) =~= columns(true).filter(|c: Column| !is_greek_column(c)));
    assert(columns(true).filter(|c: Column| is_greek_column(c)) =~= seq![
        Column::Call(Field::Delta),
        Column::Call(Field::Gamma),
        Column::Call(Field::Vega),
        Column::Put(Field::Delta),
        Column::Put(Field::Gamma),
        Column::Put(Field::Vega),
    ]);
    assert(visible_min_heights(v.toggled_greeks(), area) =~= visible_min_heights(v, area));
}

} // verus!
