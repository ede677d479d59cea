//! Tab stops: one flag per column.

use vstd::prelude::*;

verus! {

/// What the tab stops are: the flag of each column, and the period of the default stops.
pub struct TabStopView {
    pub tabs: Seq<bool>,
    pub tab_width: usize,
}

impl TabStopView {
    /// The flags of columns `from` up to `to` by default: a stop at every multiple of the
    /// period.
    pub open spec fn defaults(from: int, to: int, tab_width: int) -> Seq<bool> {
        Seq::new(
            if to >= from {
                (to - from) as nat
            } else {
                0
            },
            |i: int| (from + i) % tab_width == 0,
        )
    }

    /// The default stops of a screen of the given width.
    pub open spec fn fresh(screen_width: usize, tab_width: usize) -> TabStopView {
        TabStopView { tabs: TabStopView::defaults(0, screen_width as int, tab_width as int), tab_width }
    }

    /// The stops with one more at column `col`.
    pub open spec fn with_stop(self, col: int) -> TabStopView {
        TabStopView { tabs: self.tabs.update(col, true), ..self }
    }

    /// The first stop after column `col`, if there is one.
    pub open spec fn next_stop(self, col: int) -> Option<usize> {
        self.stop_from(col + 1)
    }

    /// The first stop at or after column `i`, if there is one.
    pub open spec fn stop_from(self, i: int) -> Option<usize>
        decreases self.tabs.len() - i,
    {
        if i < 0 || i >= self.tabs.len() {
            None
        } else if self.tabs[i] {
            Some(i as usize)
        } else {
            self.stop_from(i + 1)
        }
    }

    /// The stops after the screen became `screen_width` columns wide: the stops there were
    /// stay, and new columns get the default stops.
    pub open spec fn resized(self, screen_width: usize) -> TabStopView {
        TabStopView {
            tabs: self.tabs + TabStopView::defaults(
                self.tabs.len() as int,
                screen_width as int,
                self.tab_width as int,
            ),
            ..self
        }
    }
}

/// The tab stops of a terminal.
#[derive(Debug)]
pub struct TabStop {
    tabs: Vec<bool>,
    tab_width: usize,
}

impl View for TabStop {
    type V = TabStopView;

    closed spec fn view(&self) -> TabStopView {
        TabStopView { tabs: self.tabs@, tab_width: self.tab_width }
    }
}

impl TabStop {
    /// Default stops, one every `tab_width` columns, for a screen of `screen_width` columns.
    pub fn new(screen_width: usize, tab_width: usize) -> (t: TabStop)
        requires
            tab_width >= 1,
        ensures
            t@ == TabStopView::fresh(screen_width, tab_width),
    {
        let mut tabs: Vec<bool> = Vec::new();
        let mut i: usize = 0;
        while i < screen_width
            invariant
                i <= screen_width,
                tab_width >= 1,
                tabs@ == TabStopView::defaults(0, i as int, tab_width as int),
            decreases screen_width - i,
        {
            tabs.push((i % tab_width) == 0);
            assert(tabs@ =~= TabStopView::defaults(0, i + 1, tab_width as int));
            i = i + 1;
        }
        TabStop { tabs, tab_width }
    }

    /// The number of columns that have a flag.
    pub fn len(&self) -> (n: usize)
        ensures
            n == self@.tabs.len(),
    {
        self.tabs.len()
    }

    /// Puts a stop at column `col`.
    pub fn set_tab_stop(&mut self, col: usize)
        requires
            col < old(self)@.tabs.len(),
        ensures
            final(self)@ == old(self)@.with_stop(col as int),
    {
        self.tabs[col] = true;
    }

    /// The first stop after column `col`, if there is one.
    pub fn find_next_tab_stop(&self, col: usize) -> (stop: Option<usize>)
        ensures
            stop == self@.next_stop(col as int),
            stop matches Some(s) ==> col < s < self@.tabs.len(),
    {
        if col >= self.tabs.len() {
            return None;
        }
        let mut i = col + 1;
        while i < self.tabs.len()
            invariant
                col < i <= self.tabs.len(),
                self@.stop_from(i as int) == self@.next_stop(col as int),
            decreases self.tabs.len() - i,
        {
            if self.tabs[i] {
                return Some(i);
            }
            i = i + 1;
        }
        None
    }

    /// Extends the stops to a screen of `screen_width` columns.
    pub fn resize(&mut self, screen_width: usize)
        requires
            old(self)@.tab_width >= 1,
        ensures
            final(self)@ == old(self)@.resized(screen_width),
    {
        let current = self.tabs.len();
        let mut i = current;
        assert(self.tabs@ =~= old(self)@.tabs + TabStopView::defaults(
            current as int,
            current as int,
            self.tab_width as int,
        ));
        while i < screen_width
            invariant
                current == old(self)@.tabs.len(),
                current <= i,
                i <= screen_width || i == current,
                self.tab_width == old(self).tab_width,
                self.tab_width >= 1,
                self.tabs@ == old(self)@.tabs + TabStopView::defaults(
                    current as int,
                    i as int,
                    self.tab_width as int,
                ),
            decreases screen_width - i,
        {
            self.tabs.push((i % self.tab_width) == 0);
            assert(self.tabs@ =~= old(self)@.tabs + TabStopView::defaults(
                current as int,
                i + 1,
                self.tab_width as int,
            ));
            i = i + 1;
        }
        assert(TabStopView::defaults(current as int, i as int, self.tab_width as int)
            =~= TabStopView::defaults(current as int, screen_width as int, self.tab_width as int));
    }
}

} // verus!
