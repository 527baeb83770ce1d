//! Navigation state: which expiration is selected, which are expanded,
//! where the list is scrolled, and whether greeks are shown.
use vstd::arithmetic::div_mod::{lemma_mod_add_multiples_vanish, lemma_mod_self_0, lemma_small_mod};
use vstd::prelude::*;

verus! {

/// Number of list rows assumed to be on screen when the scroll offset
/// follows the cursor. It does not depend on the item heights.
pub const VISIBLE_WINDOW: usize = 10;

/// How far one page key moves the cursor.
pub const PAGE_STEP: usize = 5;

/// The two ways of presenting the expirations.
#[derive(Clone, Copy, Debug, PartialEq, Eq, Structural)]
pub enum Variant {
    /// A scrolling list of boxes, collapsed at start, with page keys.
    Scrolling,
    /// One expiration at a time behind a tab strip, expanded at start.
    Tabs,
}

/// An input event, already reduced to what the viewer reacts to.
#[derive(Clone, Copy, Debug, PartialEq, Eq, Structural)]
pub enum Key {
    Quit,
    Expand,
    Greeks,
    Down,
    Up,
    PageDown,
    PageUp,
    Other,
}

/// Mathematical model of the viewer's state.
pub struct AppView {
    /// Option pairs (table rows) of each expiration.
    pub rows: Seq<usize>,
    pub expanded: Seq<bool>,
    pub cursor: nat,
    pub scroll: nat,
    pub show_greeks: bool,
    pub variant: Variant,
}

/// The scroll offset that keeps cursor `c` inside the window, starting from offset `s`.
pub open spec fn reconcile(variant: Variant, c: nat, s: nat) -> nat {
    if variant == Variant::Tabs {
        c
    } else if c < s {
        c
    } else if c >= s + VISIBLE_WINDOW {
        (c - VISIBLE_WINDOW + 1) as nat
    } else {
        s
    }
}

/// One step forward on a ring of `n` positions.
pub open spec fn next_index(c: nat, n: nat) -> nat {
    (((c + 1) as int) % (n as int)) as nat
}

/// One step backward on a ring of `n` positions.
pub open spec fn prev_index(c: nat, n: nat) -> nat {
    ((c + n - 1) % (n as int)) as nat
}

/// `c` moved `PAGE_STEP` forward, stopping at the last of `n` positions.
pub open spec fn page_down_index(c: nat, n: nat) -> nat {
    if c + PAGE_STEP < n - 1 {
        (c + PAGE_STEP) as nat
    } else {
        (n - 1) as nat
    }
}

/// `c` moved `PAGE_STEP` back, stopping at zero.
pub open spec fn page_up_index(c: nat) -> nat {
    if c >= PAGE_STEP {
        (c - PAGE_STEP) as nat
    } else {
        0
    }
}

/// The flags with the one at `i` flipped, if there is one at `i`.
pub open spec fn toggle_at(flags: Seq<bool>, i: nat) -> Seq<bool> {
    if i < flags.len() {
        flags.update(i as int, !flags[i as int])
    } else {
        flags
    }
}

impl AppView {
    pub open spec fn len(self) -> nat {
        self.rows.len()
    }

    pub open spec fn wf(self) -> bool {
        &&& self.expanded.len() == self.rows.len()
        &&& self.len() == 0 ==> self.cursor == 0 && self.scroll == 0
        &&& self.len() > 0 ==> self.cursor < self.len()
        &&& self.scroll <= self.cursor < self.scroll + VISIBLE_WINDOW
        &&& self.variant == Variant::Tabs ==> self.scroll == self.cursor
    }

    /// The state right after loading: cursor and scroll at the top, greeks
    /// shown, expirations collapsed when scrolling and expanded with tabs.
    pub open spec fn initial(rows: Seq<usize>, variant: Variant) -> AppView {
        AppView {
            rows,
            expanded: Seq::new(rows.len(), |i: int| variant == Variant::Tabs),
            cursor: 0,
            scroll: 0,
            show_greeks: true,
            variant,
        }
    }

    /// The cursor set to `c`, and the scroll offset reconciled with it.
    pub open spec fn with_cursor(self, c: nat) -> AppView {
        AppView { cursor: c, scroll: reconcile(self.variant, c, self.scroll), ..self }
    }

    pub open spec fn moved_down(self) -> AppView {
        if self.len() == 0 {
            self
        } else {
            self.with_cursor(next_index(self.cursor, self.len()))
        }
    }

    pub open spec fn moved_up(self) -> AppView {
        if self.len() == 0 {
            self
        } else {
            self.with_cursor(prev_index(self.cursor, self.len()))
        }
    }

    /// Paging is a feature of the scrolling list only.
    pub open spec fn paged_down(self) -> AppView {
        if self.len() == 0 || self.variant == Variant::Tabs {
            self
        } else {
            self.with_cursor(page_down_index(self.cursor, self.len()))
        }
    }

    pub open spec fn paged_up(self) -> AppView {
        if self.len() == 0 || self.variant == Variant::Tabs {
            self
        } else {
            self.with_cursor(page_up_index(self.cursor))
        }
    }

    pub open spec fn toggled_expand(self) -> AppView {
        AppView { expanded: toggle_at(self.expanded, self.cursor), ..self }
    }

    pub open spec fn toggled_greeks(self) -> AppView {
        AppView { show_greeks: !self.show_greeks, ..self }
    }

    /// The state after one key press.
    pub open spec fn after_key(self, key: Key) -> AppView {
        match key {
            Key::Expand => self.toggled_expand(),
            Key::Greeks => self.toggled_greeks(),
            Key::Down => self.moved_down(),
            Key::Up => self.moved_up(),
            Key::PageDown => self.paged_down(),
            Key::PageUp => self.paged_up(),
            _ => self,
        }
    }
}

/// The viewer's state. The model is `AppView`; `wf` holds between calls.
pub struct App {
    option_counts: Vec<usize>,
    expanded_expirations: Vec<bool>,
    cursor_position: usize,
    scroll_offset: usize,
    show_greeks: bool,
    variant: Variant,
}

impl View for App {
    type V = AppView;

    closed spec fn view(&self) -> AppView {
        AppView {
            rows: self.option_counts@,
            expanded: self.expanded_expirations@,
            cursor: self.cursor_position as nat,
            scroll: self.scroll_offset as nat,
            show_greeks: self.show_greeks,
            variant: self.variant,
        }
    }
}

impl App {
    pub open spec fn wf(&self) -> bool {
        self@.wf()
    }

    /// A scrolling viewer over expirations holding `option_counts[i]` option pairs each.
    pub fn new(option_counts: Vec<usize>) -> (r: App)
        ensures
            r.wf(),
            r@ == AppView::initial(option_counts@, Variant::Scrolling),
    {
        App::with_variant(option_counts, Variant::Scrolling)
    }

    /// A tabbed viewer over expirations holding `option_counts[i]` option pairs each.
    pub fn new_tabbed(option_counts: Vec<usize>) -> (r: App)
        ensures
            r.wf(),
            r@ == AppView::initial(option_counts@, Variant::Tabs),
    {
        App::with_variant(option_counts, Variant::Tabs)
    }

    pub fn with_variant(option_counts: Vec<usize>, variant: Variant) -> (r: App)
        ensures
            r.wf(),
            r@ == AppView::initial(option_counts@, variant),
    {
        let n = option_counts.len();
        let start_expanded = match variant {
            Variant::Scrolling => false,
            Variant::Tabs => true,
        };
        let mut expanded: Vec<bool> = Vec::new();
        let mut i: usize = 0;
        while i < n
            invariant
                i <= n,
                expanded@ == Seq::new(i as nat, |j: int| variant == Variant::Tabs),
                start_expanded == (variant == Variant::Tabs),
            decreases n - i,
        {
            expanded.push(start_expanded);
            i = i + 1;
            assert(expanded@ =~= Seq::new(i as nat, |j: int| variant == Variant::Tabs));
        }
        App {
            option_counts,
            expanded_expirations: expanded,
            cursor_position: 0,
            scroll_offset: 0,
            show_greeks: true,
            variant,
        }
    }

    pub fn expiration_count(&self) -> (r: usize)
        ensures
            r == self@.len(),
    {
        self.option_counts.len()
    }

    pub fn cursor_position(&self) -> (r: usize)
        ensures
            r == self@.cursor,
    {
        self.cursor_position
    }

    pub fn scroll_offset(&self) -> (r: usize)
        ensures
            r == self@.scroll,
    {
        self.scroll_offset
    }

    pub fn show_greeks(&self) -> (r: bool)
        ensures
            r == self@.show_greeks,
    {
        self.show_greeks
    }

    pub fn variant(&self) -> (r: Variant)
        ensures
            r == self@.variant,
    {
        self.variant
    }

    /// Whether expiration `i` is expanded; `false` where there is none.
    pub fn is_expanded(&self, i: usize) -> (r: bool)
        ensures
            r == (i < self@.expanded.len() && self@.expanded[i as int]),
    {
        i < self.expanded_expirations.len() && self.expanded_expirations[i]
    }

    /// Option pairs held by expiration `i`; zero where there is none.
    pub fn option_count(&self, i: usize) -> (r: usize)
        ensures
            r == (if i < self@.rows.len() { self@.rows[i as int] } else { 0 }),
    {
        if i < self.option_counts.len() {
            self.option_counts[i]
        } else {
            0
        }
    }

    /// Flips the expanded flag of the expiration under the cursor.
    pub fn toggle_current_expiration(&mut self)
        requires
            old(self).wf(),
        ensures
            final(self).wf(),
            final(self)@ == old(self)@.toggled_expand(),
    {
        let c = self.cursor_position;
        if c < self.expanded_expirations.len() {
            let flag = self.expanded_expirations[c];
            self.expanded_expirations.set(c, !flag);
        }
    }

    pub fn toggle_greeks(&mut self)
        requires
            old(self).wf(),
        ensures
            final(self).wf(),
            final(self)@ == old(self)@.toggled_greeks(),
    {
        self.show_greeks = !self.show_greeks;
    }

    /// Moves the cursor one expiration down, from the last back to the first.
    pub fn move_cursor_down(&mut self)
        requires
            old(self).wf(),
        ensures
            final(self).wf(),
            final(self)@ == old(self)@.moved_down(),
            old(self)@.len() > 0 ==> final(self)@.cursor == next_index(old(self)@.cursor, old(self)@.len()),
            old(self)@.len() == 0 ==> final(self)@ == old(self)@,
    {
        let n = self.expanded_expirations.len();
        if n > 0 {
            let c = if self.cursor_position + 1 < n { self.cursor_position + 1 } else { 0 };
            proof {
                if self.cursor_position + 1 < n {
                    lemma_small_mod((self.cursor_position + 1) as nat, n as nat);
                } else {
                    lemma_mod_self_0(n as int);
                }
            }
            self.cursor_position = c;
            self.adjust_scroll();
        }
    }

    /// Moves the cursor one expiration up, from the first round to the last.
    pub fn move_cursor_up(&mut self)
        requires
            old(self).wf(),
        ensures
            final(self).wf(),
            final(self)@ == old(self)@.moved_up(),
            old(self)@.len() > 0 ==> final(self)@.cursor == prev_index(old(self)@.cursor, old(self)@.len()),
            old(self)@.len() == 0 ==> final(self)@ == old(self)@,
    {
        let n = self.expanded_expirations.len();
        if n > 0 {
            let c = if self.cursor_position > 0 { self.cursor_position - 1 } else { n - 1 };
            proof {
                if self.cursor_position > 0 {
                    lemma_mod_add_multiples_vanish((self.cursor_position - 1) as int, n as int);
                    lemma_small_mod((self.cursor_position - 1) as nat, n as nat);
                } else {
                    lemma_small_mod((n - 1) as nat, n as nat);
                }
            }
            self.cursor_position = c;
            self.adjust_scroll();
        }
    }

    /// Moves the cursor `PAGE_STEP` down, stopping at the last expiration.
    /// With tabs there is no paging.
    pub fn page_down(&mut self)
        requires
            old(self).wf(),
        ensures
            final(self).wf(),
            final(self)@ == old(self)@.paged_down(),
            old(self)@.len() > 0 ==> final(self)@.cursor < old(self)@.len(),
            old(self)@.len() == 0 ==> final(self)@ == old(self)@,
    {
        let n = self.expanded_expirations.len();
        if n > 0 && self.variant == Variant::Scrolling {
            let c = if n - 1 - self.cursor_position > PAGE_STEP {
                self.cursor_position + PAGE_STEP
            } else {
                n - 1
            };
            self.cursor_position = c;
            self.adjust_scroll();
        }
    }

    /// Moves the cursor `PAGE_STEP` up, stopping at the first expiration.
    /// With tabs there is no paging.
    pub fn page_up(&mut self)
        requires
            old(self).wf(),
        ensures
            final(self).wf(),
            final(self)@ == old(self)@.paged_up(),
            final(self)@.cursor <= old(self)@.cursor,
            old(self)@.len() == 0 ==> final(self)@ == old(self)@,
    {
        let n = self.expanded_expirations.len();
        if n > 0 && self.variant == Variant::Scrolling {
            self.cursor_position = self.cursor_position.saturating_sub(PAGE_STEP);
            self.adjust_scroll();
        }
    }

    /// Moves the scroll offset so that the cursor lies inside the window.
    pub fn adjust_scroll(&mut self)
        requires
            old(self)@.expanded.len() == old(self)@.len(),
            old(self)@.cursor < old(self)@.len(),
        ensures
            final(self)@ == old(self)@.with_cursor(old(self)@.cursor),
            final(self).wf(),
    {
        let c = self.cursor_position;
        if self.variant == Variant::Tabs {
            self.scroll_offset = c;
        } else if c < self.scroll_offset {
            self.scroll_offset = c;
        } else if c - self.scroll_offset >= VISIBLE_WINDOW {
            self.scroll_offset = c - VISIBLE_WINDOW + 1;
        }
    }

    /// Applies one key press; returns whether it asks to quit.
    pub fn handle_key(&mut self, key: Key) -> (quit: bool)
        requires
            old(self).wf(),
        ensures
            final(self).wf(),
            final(self)@ == old(self)@.after_key(key),
            quit == (key == Key::Quit),
    {
        match key {
            Key::Quit => {
                return true;
            },
            Key::Expand => self.toggle_current_expiration(),
            Key::Greeks => self.toggle_greeks(),
            Key::Down => self.move_cursor_down(),
            Key::Up => self.move_cursor_up(),
            Key::PageDown => self.page_down(),
            Key::PageUp => self.page_up(),
            Key::Other => {},
        }
        false
    }
}

} // verus!
