//! The highlighted entry and the window of entries that is drawn.
//!
//! The viewport looks at a ranked list of matched entries of which it only knows the
//! length. It keeps a current index into that list and the index of the first entry
//! in the window. Every move ends with the current index inside the list and inside
//! the window.

use vstd::prelude::*;

verus! {

/// The terminal rows above the first entry of the list: a click on one of them hits no
/// entry.
pub const LIST_HEADER_ROWS: u16 = 5;

/// What a snapshot of the match engine says of its size.
#[derive(Clone, Copy, Debug, PartialEq, Eq, Structural)]
pub struct SnapshotCounts {
    /// The number of entries in the pool.
    pub item_count: u32,
    /// The number of entries that match the query.
    pub matched_item_count: u32,
}

/// The index of the last of `matched` entries, or zero when there is none.
pub open spec fn last_index(matched: int) -> int {
    if matched > 0 {
        matched - 1
    } else {
        0
    }
}

/// The index that a request for `requested` leads to in a list whose last index is
/// `last`. A request before the start goes to the last index when wrapping and to the
/// start when not; a request behind the end goes to the start when wrapping and to the
/// last index when not.
pub open spec fn resolve_index(requested: int, last: int, wrap_around: bool) -> int {
    if requested < 0 {
        if wrap_around {
            last
        } else {
            0
        }
    } else if requested > last {
        if wrap_around {
            0
        } else {
            last
        }
    } else {
        requested
    }
}

/// The height that counts: the configured one, or the size of the pool if that is
/// smaller.
pub open spec fn effective_height(height: int, item_count: int) -> int {
    if item_count < height {
        item_count
    } else {
        height
    }
}

/// The number of entries in the window: the effective height, and one entry even where
/// that is zero.
pub open spec fn window_rows(height: int, item_count: int) -> int {
    if effective_height(height, item_count) < 1 {
        1
    } else {
        effective_height(height, item_count)
    }
}

/// Where a window of `rows` entries that starts at `first` starts after it was made to
/// hold `index`: at the index if that lies before the window, `rows - 1` entries before
/// the index if it lies behind the window, and where it was otherwise.
pub open spec fn window_start(first: int, index: int, rows: int) -> int {
    if index < first {
        index
    } else if index >= first + rows {
        index - rows + 1
    } else {
        first
    }
}

/// The index of the last entry in the window, which ends with the list at the latest.
pub open spec fn window_end(first: int, rows: int, last: int) -> int {
    if first + rows - 1 < last {
        first + rows - 1
    } else {
        last
    }
}

/// One step of navigation.
pub enum Navigation {
    Next,
    Previous,
    NextPage,
    PreviousPage,
    Home,
    End,
    /// A move to the entry that an index leads to, wrapping or not.
    MoveTo { index: int, wrap_around: bool },
}

/// The mathematical state of a viewport.
#[verifier::ext_equal]
pub struct ViewportState {
    pub current: int,
    pub first: int,
    pub height: int,
}

impl ViewportState {
    /// The window moved, if need be, so that it holds the entry that `new_index` leads
    /// to.
    pub open spec fn windowed(self, new_index: int, wrap_around: bool, counts: SnapshotCounts)
        -> ViewportState {
        ViewportState {
            current: self.current,
            first: window_start(
                self.first,
                resolve_index(new_index, last_index(counts.matched_item_count as int), wrap_around),
                window_rows(self.height, counts.item_count as int),
            ),
            height: self.height,
        }
    }

    /// The current index moved to the entry that `requested` leads to, and the window
    /// with it.
    pub open spec fn moved_to(self, requested: int, wrap_around: bool, counts: SnapshotCounts)
        -> ViewportState {
        let target = resolve_index(
            requested,
            last_index(counts.matched_item_count as int),
            wrap_around,
        );
        ViewportState {
            current: target,
            first: window_start(
                self.first,
                target,
                window_rows(self.height, counts.item_count as int),
            ),
            height: self.height,
        }
    }

    /// The index of the last entry in the window.
    pub open spec fn last_visible(self, counts: SnapshotCounts) -> int {
        window_end(
            self.first,
            window_rows(self.height, counts.item_count as int),
            last_index(counts.matched_item_count as int),
        )
    }

    /// The number of entries to draw: those of the window that the list has.
    pub open spec fn visible_count(self, counts: SnapshotCounts) -> int {
        if counts.matched_item_count > 0 && 0 <= self.first < counts.matched_item_count {
            self.last_visible(counts) - self.first + 1
        } else {
            0
        }
    }

    /// One entry down. Nothing moves when no entry matches.
    pub open spec fn after_next(self, wrap_around: bool, counts: SnapshotCounts) -> ViewportState {
        if counts.matched_item_count == 0 {
            self
        } else {
            self.moved_to(self.current + 1, wrap_around, counts)
        }
    }

    /// One entry up. Nothing moves when no entry matches.
    pub open spec fn after_previous(self, wrap_around: bool, counts: SnapshotCounts)
        -> ViewportState {
        if counts.matched_item_count == 0 {
            self
        } else {
            self.moved_to(self.current - 1, wrap_around, counts)
        }
    }

    /// One page down, without wrapping: to the last entry in the window or, from there,
    /// as many entries further as the window holds.
    pub open spec fn after_next_page(self, counts: SnapshotCounts) -> ViewportState {
        if counts.matched_item_count == 0 {
            self
        } else if self.current < self.last_visible(counts) {
            self.moved_to(self.last_visible(counts), false, counts)
        } else {
            self.moved_to(
                self.current + window_rows(self.height, counts.item_count as int),
                false,
                counts,
            )
        }
    }

    /// One page up, without wrapping: to the first entry in the window or, from there,
    /// as many entries back as the window holds.
    pub open spec fn after_previous_page(self, counts: SnapshotCounts) -> ViewportState {
        if counts.matched_item_count == 0 {
            self
        } else if self.current > self.first {
            self.moved_to(self.first, false, counts)
        } else {
            self.moved_to(
                self.current - window_rows(self.height, counts.item_count as int),
                false,
                counts,
            )
        }
    }

    /// To the first entry. Nothing moves when no entry matches.
    pub open spec fn after_home(self, counts: SnapshotCounts) -> ViewportState {
        if counts.matched_item_count == 0 {
            self
        } else {
            self.moved_to(0, false, counts)
        }
    }

    /// To the last entry. Nothing moves when no entry matches.
    pub open spec fn after_end(self, counts: SnapshotCounts) -> ViewportState {
        if counts.matched_item_count == 0 {
            self
        } else {
            self.moved_to(last_index(counts.matched_item_count as int), false, counts)
        }
    }

    /// The state after one step of navigation. `wrap_around` is what the configuration
    /// says of the steps that do not say it themselves.
    pub open spec fn after(self, step: Navigation, wrap_around: bool, counts: SnapshotCounts)
        -> ViewportState {
        match step {
            Navigation::Next => self.after_next(wrap_around, counts),
            Navigation::Previous => self.after_previous(wrap_around, counts),
            Navigation::NextPage => self.after_next_page(counts),
            Navigation::PreviousPage => self.after_previous_page(counts),
            Navigation::Home => self.after_home(counts),
            Navigation::End => self.after_end(counts),
            Navigation::MoveTo { index, wrap_around: wrap } => self.moved_to(index, wrap, counts),
        }
    }

    /// The state after a sequence of steps of navigation on one snapshot.
    pub open spec fn after_all(
        self,
        steps: Seq<Navigation>,
        wrap_around: bool,
        counts: SnapshotCounts,
    ) -> ViewportState
        decreases steps.len(),
    {
        if steps.len() == 0 {
            self
        } else {
            self.after_all(steps.drop_last(), wrap_around, counts).after(
                steps.last(),
                wrap_around,
                counts,
            )
        }
    }

    /// The current index lies in the list and in the window.
    pub open spec fn in_range(self, counts: SnapshotCounts) -> bool {
        &&& 0 <= self.current <= last_index(counts.matched_item_count as int)
        &&& 0 <= self.first <= self.current
        &&& self.current <= self.first + effective_height(self.height, counts.item_count as int)
        &&& self.current <= self.last_visible(counts)
    }

    /// The entry that a click on terminal row `row` hits, if it hits one.
    pub open spec fn click_target(self, row: int, counts: SnapshotCounts) -> Option<int> {
        if row < LIST_HEADER_ROWS {
            None
        } else if self.first + (row - LIST_HEADER_ROWS) >= counts.matched_item_count {
            None
        } else {
            Some(self.first + (row - LIST_HEADER_ROWS))
        }
    }
}

/// A request always leads to an index of the list.
pub proof fn lemma_resolve_index_in_range(requested: int, last: int, wrap_around: bool)
    requires
        0 <= last,
    ensures
        0 <= resolve_index(requested, last, wrap_around) <= last,
        0 <= requested <= last ==> resolve_index(requested, last, wrap_around) == requested,
{
}

/// After the window was made to hold an index, it holds it.
pub proof fn lemma_window_holds_index(first: int, index: int, rows: int)
    requires
        0 <= first,
        0 <= index,
        1 <= rows,
    ensures
        0 <= window_start(first, index, rows) <= index,
        index < window_start(first, index, rows) + rows,
{
}

/// Whatever state the viewport was in, after a move the current index lies in the list
/// and in the window: for `n` matched entries, `n > 0`, it is below `n`, and the first
/// visible index is at most the current index, which is at most the first visible index
/// plus the height.
pub proof fn lemma_move_lands_in_range(
    before: ViewportState,
    requested: int,
    wrap_around: bool,
    counts: SnapshotCounts,
)
    requires
        0 <= before.first,
        0 <= before.height,
    ensures
        before.moved_to(requested, wrap_around, counts).in_range(counts),
        counts.matched_item_count > 0 ==> before.moved_to(requested, wrap_around, counts).current
            < counts.matched_item_count,
        before.moved_to(requested, wrap_around, counts).first <= before.moved_to(
            requested,
            wrap_around,
            counts,
        ).current <= before.moved_to(requested, wrap_around, counts).first + before.height,
{
    let last = last_index(counts.matched_item_count as int);
    let target = resolve_index(requested, last, wrap_around);
    lemma_resolve_index_in_range(requested, last, wrap_around);
    lemma_window_holds_index(
        before.first,
        target,
        window_rows(before.height, counts.item_count as int),
    );
}

/// Every navigation keeps the current index in the list and in the window, from any
/// state and for any number of matched entries; so it stays there over any sequence of
/// navigations on one snapshot.
pub proof fn lemma_navigation_stays_in_range(
    before: ViewportState,
    wrap_around: bool,
    counts: SnapshotCounts,
)
    requires
        before.in_range(counts),
        0 <= before.height,
    ensures
        before.after_next(wrap_around, counts).in_range(counts),
        before.after_previous(wrap_around, counts).in_range(counts),
        before.after_next_page(counts).in_range(counts),
        before.after_previous_page(counts).in_range(counts),
        before.after_home(counts).in_range(counts),
        before.after_end(counts).in_range(counts),
{
    let rows = window_rows(before.height, counts.item_count as int);
    lemma_move_lands_in_range(before, before.current + 1, wrap_around, counts);
    lemma_move_lands_in_range(before, before.current - 1, wrap_around, counts);
    lemma_move_lands_in_range(before, before.last_visible(counts), false, counts);
    lemma_move_lands_in_range(before, before.current + rows, false, counts);
    lemma_move_lands_in_range(before, before.first, false, counts);
    lemma_move_lands_in_range(before, before.current - rows, false, counts);
    lemma_move_lands_in_range(before, 0, false, counts);
    lemma_move_lands_in_range(
        before,
        last_index(counts.matched_item_count as int),
        false,
        counts,
    );
}

/// Over any sequence of navigations on a list of `n` matched entries, `n > 0`, the
/// current index stays below `n`, and inside the window.
pub proof fn lemma_navigation_sequence_stays_in_range(
    before: ViewportState,
    steps: Seq<Navigation>,
    wrap_around: bool,
    counts: SnapshotCounts,
)
    requires
        before.in_range(counts),
        0 <= before.height,
    ensures
        before.after_all(steps, wrap_around, counts).in_range(counts),
        before.after_all(steps, wrap_around, counts).height == before.height,
        counts.matched_item_count > 0 ==> 0 <= before.after_all(
            steps,
            wrap_around,
            counts,
        ).current < counts.matched_item_count,
    decreases steps.len(),
{
    if steps.len() > 0 {
        lemma_navigation_sequence_stays_in_range(before, steps.drop_last(), wrap_around, counts);
        let reached = before.after_all(steps.drop_last(), wrap_around, counts);
        lemma_navigation_stays_in_range(reached, wrap_around, counts);
        match steps.last() {
            Navigation::MoveTo { index, wrap_around: wrap } => {
                lemma_move_lands_in_range(reached, index, wrap, counts);
            },
            _ => {},
        }
    }
}

/// After the window was moved to hold the current index, it holds it: for any height
/// and any current index of the list, the first visible index is at most the current
/// index, which is at most the first visible index plus the height.
pub proof fn lemma_window_holds_current_index(
    before: ViewportState,
    wrap_around: bool,
    counts: SnapshotCounts,
)
    requires
        0 <= before.height,
        0 <= before.first,
        0 <= before.current <= last_index(counts.matched_item_count as int),
    ensures
        before.windowed(before.current, wrap_around, counts).first <= before.current,
        before.current <= before.windowed(before.current, wrap_around, counts).first
            + before.height,
        before.windowed(before.current, wrap_around, counts).current == before.current,
        before.windowed(before.current, wrap_around, counts).in_range(counts),
{
    lemma_window_holds_index(
        before.first,
        before.current,
        window_rows(before.height, counts.item_count as int),
    );
}

/// From the last of `n` matched entries, `n > 0`, one entry down leads to the first
/// entry when wrapping and nowhere when not.
pub proof fn lemma_next_at_last_entry(before: ViewportState, counts: SnapshotCounts)
    requires
        counts.matched_item_count > 0,
        before.current == counts.matched_item_count - 1,
    ensures
        before.after_next(true, counts).current == 0,
        before.after_next(false, counts).current == counts.matched_item_count - 1,
{
}

/// From the first of the matched entries, one entry up leads to the last entry when
/// wrapping and nowhere when not.
pub proof fn lemma_previous_at_first_entry(before: ViewportState, counts: SnapshotCounts)
    requires
        counts.matched_item_count > 0,
        before.current == 0,
    ensures
        before.after_previous(true, counts).current == counts.matched_item_count - 1,
        before.after_previous(false, counts).current == 0,
{
}

/// With no matched entry, no navigation changes the viewport.
pub proof fn lemma_navigation_on_empty_list(
    before: ViewportState,
    wrap_around: bool,
    counts: SnapshotCounts,
)
    requires
        counts.matched_item_count == 0,
    ensures
        before.after_next(wrap_around, counts) == before,
        before.after_previous(wrap_around, counts) == before,
        before.after_next_page(counts) == before,
        before.after_previous_page(counts) == before,
        before.after_home(counts) == before,
        before.after_end(counts) == before,
        before.click_target(0, counts) is None,
{
}

/// The current index, the first visible index and the height of the window.
#[derive(Clone, Copy, Debug, PartialEq, Eq, Structural)]
pub struct Viewport {
    pub current_index: u32,
    pub first_visible_index: u32,
    pub height: u16,
}

impl View for Viewport {
    type V = ViewportState;

    open spec fn view(&self) -> ViewportState {
        ViewportState {
            current: self.current_index as int,
            first: self.first_visible_index as int,
            height: self.height as int,
        }
    }
}

impl SnapshotCounts {
    /// The counts of an empty pool.
    pub fn empty() -> (r: Self)
        ensures
            r.item_count == 0,
            r.matched_item_count == 0,
    {
        SnapshotCounts { item_count: 0, matched_item_count: 0 }
    }

    /// The index of the last matched entry, or zero when there is none.
    pub fn last_item_index(&self) -> (r: u32)
        ensures
            r == last_index(self.matched_item_count as int),
    {
        if self.matched_item_count > 0 {
            self.matched_item_count - 1
        } else {
            0
        }
    }
}

impl Viewport {
    /// A viewport at the start of the list.
    pub fn new(height: u16) -> (r: Self)
        ensures
            r@ == (ViewportState { current: 0, first: 0, height: height as int }),
    {
        Viewport { current_index: 0, first_visible_index: 0, height }
    }

    /// The height that counts: the configured one, or the size of the pool if that is
    /// smaller.
    pub fn height(&self, counts: SnapshotCounts) -> (r: u16)
        ensures
            r == effective_height(self.height as int, counts.item_count as int),
    {
        if counts.item_count < self.height as u32 {
            counts.item_count as u16
        } else {
            self.height
        }
    }

    /// The number of entries in the window, at least one.
    pub fn rows(&self, counts: SnapshotCounts) -> (r: u16)
        ensures
            r == window_rows(self.height as int, counts.item_count as int),
            r >= 1,
    {
        let height = self.height(counts);
        if height < 1 {
            1
        } else {
            height
        }
    }

    /// Sets the height of the window. The window itself moves with the next navigation.
    pub fn update_height(&mut self, height: u16)
        ensures
            final(self)@ == (ViewportState { height: height as int, ..old(self)@ }),
    {
        self.height = height;
    }

    pub fn first_visible_item_index(&self) -> (r: u32)
        ensures
            r == self@.first,
    {
        self.first_visible_index
    }

    /// The index of the last entry in the window, which ends with the list at the
    /// latest.
    pub fn last_visible_item_index(&self, counts: SnapshotCounts) -> (r: u32)
        ensures
            r == self@.last_visible(counts),
            r <= last_index(counts.matched_item_count as int),
    {
        let last = counts.last_item_index();
        let end: u64 = self.first_visible_index as u64 + self.rows(counts) as u64 - 1;
        if end < last as u64 {
            end as u32
        } else {
            last
        }
    }

    /// The first and the last index of the entries to draw: those of the window that
    /// the list has. `None` where it has none of them.
    pub fn visible_item_range(&self, counts: SnapshotCounts) -> (r: Option<(u32, u32)>)
        ensures
            r is Some <==> counts.matched_item_count > 0 && self@.first
                < counts.matched_item_count,
            r matches Some((from, to)) ==> from == self@.first && to == self@.last_visible(counts)
                && from <= to < counts.matched_item_count,
            r matches Some((from, to)) ==> self@.visible_count(counts) == to - from + 1,
            r is None ==> self@.visible_count(counts) == 0,
    {
        if counts.matched_item_count == 0 || self.first_visible_index >= counts.matched_item_count {
            None
        } else {
            Some((self.first_visible_index, self.last_visible_item_index(counts)))
        }
    }

    /// Moves the window, if need be, so that it holds the entry that `new_index` leads
    /// to. An index before the window becomes its first entry, an index behind it its
    /// last.
    pub fn set_item_window(&mut self, new_index: i64, wrap_around: bool, counts: SnapshotCounts)
        ensures
            final(self)@ == old(self)@.windowed(new_index as int, wrap_around, counts),
            final(self)@.first <= resolve_index(
                new_index as int,
                last_index(counts.matched_item_count as int),
                wrap_around,
            ) <= final(self)@.first + effective_height(
                old(self).height as int,
                counts.item_count as int,
            ),
    {
        let last: i64 = counts.last_item_index() as i64;
        let index: i64 = if new_index < 0 {
            if wrap_around {
                last
            } else {
                0
            }
        } else if new_index > last {
            if wrap_around {
                0
            } else {
                last
            }
        } else {
            new_index
        };
        let first: i64 = self.first_visible_index as i64;
        let rows: i64 = self.rows(counts) as i64;
        if index < first {
            self.first_visible_index = index as u32;
        } else if index >= first + rows {
            self.first_visible_index = (index - rows + 1) as u32;
        }
    }

    /// Moves the current index to the entry that `new_index` leads to and the window
    /// with it, and returns the index. `new_index` may lie before the start of the
    /// list or behind its end.
    pub fn set_current_index(
        &mut self,
        new_index: i64,
        wrap_around: bool,
        counts: SnapshotCounts,
    ) -> (r: u32)
        ensures
            final(self)@ == old(self)@.moved_to(new_index as int, wrap_around, counts),
            r == final(self).current_index,
            final(self)@.in_range(counts),
            counts.matched_item_count > 0 ==> r < counts.matched_item_count,
            final(self)@.first <= final(self)@.current <= final(self)@.first + final(self)@.height,
    {
        let last: u32 = counts.last_item_index();
        self.current_index = if new_index < 0 {
            if wrap_around {
                last
            } else {
                0
            }
        } else if new_index > last as i64 {
            if wrap_around {
                0
            } else {
                last
            }
        } else {
            new_index as u32
        };
        self.set_item_window(self.current_index as i64, wrap_around, counts);
        proof {
            lemma_move_lands_in_range(old(self)@, new_index as int, wrap_around, counts);
        }
        self.current_index
    }

    /// Brings the current index and the window back into a list that has changed.
    pub fn clamp_to(&mut self, counts: SnapshotCounts)
        ensures
            final(self)@ == old(self)@.moved_to(old(self)@.current, false, counts),
            final(self)@.in_range(counts),
            old(self)@.in_range(counts) ==> final(self)@ == old(self)@,
    {
        self.set_current_index(self.current_index as i64, false, counts);
    }

    /// Moves one entry down. Nothing moves when no entry matches.
    pub fn next(&mut self, wrap_around: bool, counts: SnapshotCounts)
        ensures
            final(self)@ == old(self)@.after_next(wrap_around, counts),
            counts.matched_item_count > 0 ==> final(self)@.in_range(counts),
            counts.matched_item_count == 0 ==> *final(self) == *old(self),
    {
        if counts.matched_item_count == 0 {
            return ;
        }
        self.set_current_index(self.current_index as i64 + 1, wrap_around, counts);
    }

    /// Moves one entry up. Nothing moves when no entry matches.
    pub fn previous(&mut self, wrap_around: bool, counts: SnapshotCounts)
        ensures
            final(self)@ == old(self)@.after_previous(wrap_around, counts),
            counts.matched_item_count > 0 ==> final(self)@.in_range(counts),
            counts.matched_item_count == 0 ==> *final(self) == *old(self),
    {
        if counts.matched_item_count == 0 {
            return ;
        }
        self.set_current_index(self.current_index as i64 - 1, wrap_around, counts);
    }

    /// Moves one page down, without wrapping.
    pub fn next_page(&mut self, counts: SnapshotCounts)
        ensures
            final(self)@ == old(self)@.after_next_page(counts),
            counts.matched_item_count > 0 ==> final(self)@.in_range(counts),
            counts.matched_item_count == 0 ==> *final(self) == *old(self),
    {
        if counts.matched_item_count == 0 {
            return ;
        }
        let last_visible = self.last_visible_item_index(counts);
        let target: i64 = if self.current_index < last_visible {
            last_visible as i64
        } else {
            self.current_index as i64 + self.rows(counts) as i64
        };
        self.set_current_index(target, false, counts);
    }

    /// Moves one page up, without wrapping.
    pub fn previous_page(&mut self, counts: SnapshotCounts)
        ensures
            final(self)@ == old(self)@.after_previous_page(counts),
            counts.matched_item_count > 0 ==> final(self)@.in_range(counts),
            counts.matched_item_count == 0 ==> *final(self) == *old(self),
    {
        if counts.matched_item_count == 0 {
            return ;
        }
        let target: i64 = if self.current_index > self.first_visible_index {
            self.first_visible_index as i64
        } else {
            self.current_index as i64 - self.rows(counts) as i64
        };
        self.set_current_index(target, false, counts);
    }

    /// Moves to the first entry.
    pub fn home(&mut self, counts: SnapshotCounts)
        ensures
            final(self)@ == old(self)@.after_home(counts),
            counts.matched_item_count > 0 ==> final(self)@.in_range(counts),
            counts.matched_item_count == 0 ==> *final(self) == *old(self),
    {
        if counts.matched_item_count == 0 {
            return ;
        }
        self.set_current_index(0, false, counts);
    }

    /// Moves to the last entry.
    pub fn end(&mut self, counts: SnapshotCounts)
        ensures
            final(self)@ == old(self)@.after_end(counts),
            counts.matched_item_count > 0 ==> final(self)@.in_range(counts),
            counts.matched_item_count == 0 ==> *final(self) == *old(self),
    {
        if counts.matched_item_count == 0 {
            return ;
        }
        self.set_current_index(counts.last_item_index() as i64, false, counts);
    }

    /// The index of the entry that a click on terminal row `mouse_row` hits: the first
    /// visible index plus the rows between the top of the list and the click. `None`
    /// where the click is above the list or below its last entry.
    pub fn click_target(&self, mouse_row: u16, counts: SnapshotCounts) -> (r: Option<u32>)
        ensures
            r matches Some(index) ==> self@.click_target(mouse_row as int, counts) == Some(
                index as int,
            ) && index < counts.matched_item_count,
            r is None ==> self@.click_target(mouse_row as int, counts) is None,
    {
        if mouse_row < LIST_HEADER_ROWS {
            return None;
        }
        let clicked: u64 = self.first_visible_index as u64 + (mouse_row - LIST_HEADER_ROWS) as u64;
        if clicked >= counts.matched_item_count as u64 {
            None
        } else {
            Some(clicked as u32)
        }
    }
}

} // verus!
