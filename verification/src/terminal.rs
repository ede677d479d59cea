//! The terminal: the state engine fed by the escape sequence parser.

use crate::engine::EngineView;
use crate::escape::ActionView;
use crate::host::HostRequest;
use crate::hyperlink::Rule;
use crate::model::StateView;
use crate::parser::bytes_actions;
use crate::parser::Parser;
use crate::performer::Performer;
use crate::screen::MAX_DIMENSION;
use crate::terminalstate::TerminalState;
use crate::views::views;
use vstd::prelude::*;

verus! {

/// What a terminal is: the state of its engine, and the bytes its parser has consumed.
pub struct TerminalView {
    pub state: StateView,
    pub history: Seq<u8>,
}

/// Performing a list of actions, then another, is performing the two lists joined.
pub proof fn lemma_performed_all_concat(e: EngineView, a: Seq<ActionView>, b: Seq<ActionView>)
    ensures
        e.performed_all(a + b, (a + b).len() as int) == e.performed_all(
            a,
            a.len() as int,
        ).performed_all(b, b.len() as int),
    decreases b.len(),
{
    if b.len() == 0 {
        assert(a + b =~= a);
    } else {
        let front = b.drop_last();
        lemma_performed_all_concat(e, a, front);
        assert((a + b).drop_last() =~= a + front);
        assert((a + b)[(a + b).len() - 1] == b[b.len() - 1]);
        lemma_performed_all_prefix(e, a + b, (a + b).len() - 1);
        lemma_performed_all_prefix(e.performed_all(a, a.len() as int), b, b.len() - 1);
    }
}

/// Performing the first actions of a list does not depend on those that follow.
pub proof fn lemma_performed_all_prefix(e: EngineView, a: Seq<ActionView>, n: int)
    requires
        0 <= n <= a.len(),
    ensures
        e.performed_all(a, n) == e.performed_all(a.subrange(0, n), n),
    decreases n,
{
    if n > 0 {
        lemma_performed_all_prefix(e, a, n - 1);
        lemma_performed_all_prefix(e, a.subrange(0, n), n - 1);
        assert(a.subrange(0, n).subrange(0, n - 1) =~= a.subrange(0, n - 1));
    }
}

impl TerminalView {
    /// The engine of the terminal with no text waiting to be printed.
    pub open spec fn engine(self) -> EngineView {
        EngineView { state: self.state, print: None }
    }

    /// The engine after the terminal has been fed `bytes`, before the text that waits is
    /// printed.
    pub open spec fn fed(self, bytes: Seq<u8>) -> EngineView {
        self.engine().performed_all(
            bytes_actions(self.history, bytes, bytes.len() as int),
            bytes_actions(self.history, bytes, bytes.len() as int).len() as int,
        )
    }

    /// The terminal after it has been fed `bytes`: the actions the bytes complete are
    /// performed in order, and the text that waits at the end is printed.
    pub open spec fn advanced(self, bytes: Seq<u8>) -> TerminalView {
        TerminalView { state: self.fed(bytes).flushed().state, history: self.history + bytes }
    }
}

/// A terminal: the state engine together with the parser that feeds it.
pub struct Terminal {
    state: TerminalState,
    parser: Parser,
}

impl View for Terminal {
    type V = TerminalView;

    closed spec fn view(&self) -> TerminalView {
        TerminalView { state: self.state@, history: self.parser.history() }
    }
}

impl Terminal {
    /// The terminal is well formed.
    pub open spec fn wf(&self) -> bool {
        self@.state.wf()
    }

    /// A new terminal of the given size, with room for `scrollback_size` lines of scrollback.
    pub fn new(
        physical_rows: usize,
        physical_cols: usize,
        pixel_width: usize,
        pixel_height: usize,
        scrollback_size: usize,
        hyperlink_rules: Vec<Rule>,
    ) -> (t: Terminal)
        requires
            1 <= physical_rows <= MAX_DIMENSION,
            1 <= physical_cols <= MAX_DIMENSION,
            scrollback_size <= MAX_DIMENSION,
        ensures
            t@.state == StateView::initial(
                physical_rows,
                physical_cols,
                pixel_width,
                pixel_height,
                scrollback_size,
                views(hyperlink_rules@),
            ),
            t@.history == Seq::<u8>::empty(),
            t.wf(),
    {
        Terminal {
            state: TerminalState::new(
                physical_rows,
                physical_cols,
                pixel_width,
                pixel_height,
                scrollback_size,
                hyperlink_rules,
            ),
            parser: Parser::new(),
        }
    }

    /// The state of the terminal.
    pub fn state(&self) -> (s: &TerminalState)
        ensures
            s@ == self@.state,
    {
        &self.state
    }

    /// The state of the terminal, to change it.
    pub fn state_mut(&mut self) -> (s: &mut TerminalState)
        ensures
            s@ == old(self)@.state,
            final(self)@ == (TerminalView { state: final(s)@, ..old(self)@ }),
    {
        &mut self.state
    }

    /// Feeds the terminal a slice of the bytes that the child process wrote.
    pub fn advance_bytes(&mut self, bytes: &[u8])
        requires
            old(self).wf(),
        ensures
            final(self)@ == old(self)@.advanced(bytes@),
            final(self).wf(),
    {
        let mut performer = Performer::new();
        let mut i: usize = 0;
        let ghost start = self@;
        while i < bytes.len()
            invariant
                i <= bytes.len(),
                self.state.wf(),
                start == old(self)@,
                self.parser.history() == start.history + bytes@.subrange(0, i as int),
                performer.engine(&self.state) == start.engine().performed_all(
                    bytes_actions(start.history, bytes@, i as int),
                    bytes_actions(start.history, bytes@, i as int).len() as int,
                ),
            decreases bytes.len() - i,
        {
            let actions = self.parser.parse_byte(bytes[i]);
            proof {
                lemma_performed_all_concat(
                    start.engine(),
                    bytes_actions(start.history, bytes@, i as int),
                    views(actions@),
                );
                assert(self.parser.history() =~= start.history + bytes@.subrange(0, i + 1));
            }
            performer.perform_all(&mut self.state, actions);
            i = i + 1;
        }
        proof {
            assert(bytes@.subrange(0, bytes@.len() as int) =~= bytes@);
        }
        performer.flush_print(&mut self.state);
    }

    /// Hands over what the host is to do, in the order in which it arose, and forgets it.
    pub fn take_requests(&mut self) -> (requests: Vec<HostRequest>)
        requires
            old(self).wf(),
        ensures
            views(requests@) == old(self)@.state.requests,
            final(self)@ == (TerminalView { state: old(self)@.state.requests_taken(), ..old(self)@ }),
            final(self).wf(),
    {
        self.state.take_requests()
    }
}

} // verus!
