//! Performing decoded actions on a terminal.

use crate::engine::EngineView;
use crate::escape::csi::CSI;
use crate::escape::esc::Esc;
use crate::escape::esc::EscCode;
use crate::escape::osc::OperatingSystemCommand;
use crate::escape::Action;
use crate::escape::ControlCode;
use crate::model::ModeFlag;
use crate::model::Position;
use crate::terminalstate::TerminalState;
use crate::views::views;
use vstd::prelude::*;

verus! {

/// Applies actions to a terminal. Characters to print are gathered into a run of text, which
/// is printed when another kind of action comes or when `flush_print` is called.
pub struct Performer {
    print: Option<Vec<char>>,
}

impl Performer {
    /// The text that waits to be printed.
    pub closed spec fn pending(&self) -> Option<Seq<char>> {
        match self.print {
            Some(text) => Some(text@),
            None => None,
        }
    }

    /// The terminal at work: its state and the text that waits.
    pub open spec fn engine(&self, state: &TerminalState) -> EngineView {
        EngineView { state: state@, print: self.pending() }
    }

    /// A performer with no text waiting.
    pub fn new() -> (p: Performer)
        ensures
            p.pending() is None,
    {
        Performer { print: None }
    }

    /// Prints the text that waits.
    pub fn flush_print(&mut self, state: &mut TerminalState)
        requires
            old(state).wf(),
        ensures
            final(self).engine(final(state)) == old(self).engine(old(state)).flushed(),
            final(self).pending() is None,
            final(state).wf(),
    {
        match self.print.take() {
            Some(text) => {
                state.print_text(&text);
            },
            None => {},
        }
    }

    fn print(&mut self, c: char)
        ensures
            final(self).pending() == Some(
                match old(self).pending() {
                    Some(text) => text.push(c),
                    None => seq![c],
                },
            ),
    {
        match &mut self.print {
            Some(text) => {
                text.push(c);
            },
            None => {
                let mut text: Vec<char> = Vec::new();
                text.push(c);
                assert(text@ =~= seq![c]);
                self.print = Some(text);
            },
        }
    }

    fn control(&mut self, state: &mut TerminalState, control: ControlCode)
        requires
            old(state).wf(),
        ensures
            final(state)@ == old(self).engine(old(state)).flushed().state.control_applied(control),
            final(self).pending() is None,
            final(state).wf(),
    {
        self.flush_print(state);
        match control {
            ControlCode::LineFeed | ControlCode::VerticalTab | ControlCode::FormFeed => {
                state.new_line(false)
            },
            ControlCode::CarriageReturn => {
                state.set_cursor_pos(Position::Absolute(0), Position::Relative(0));
            },
            ControlCode::Backspace => {
                state.set_cursor_pos(Position::Relative(-1), Position::Relative(0));
            },
            ControlCode::HorizontalTab => state.c0_horizontal_tab(),
            _ => {},
        }
    }

    fn csi_dispatch(&mut self, state: &mut TerminalState, csi: CSI)
        requires
            old(state).wf(),
        ensures
            final(state)@ == old(self).engine(old(state)).flushed().state.csi_applied(csi@),
            final(self).pending() is None,
            final(state).wf(),
    {
        self.flush_print(state);
        match csi {
            CSI::Sgr(sgr) => state.perform_csi_sgr(sgr),
            CSI::Cursor(cursor) => state.perform_csi_cursor(cursor),
            CSI::Edit(edit) => state.perform_csi_edit(edit),
            CSI::Mode(mode) => state.perform_csi_mode(mode),
            CSI::Device(dev) => state.perform_device(dev),
            CSI::Mouse(_) => {},
            CSI::Window(window) => state.perform_csi_window(window),
            CSI::Unspecified(_) => {},
        }
    }

    fn esc_dispatch(&mut self, state: &mut TerminalState, esc: Esc)
        requires
            old(state).wf(),
        ensures
            final(state)@ == old(self).engine(old(state)).flushed().state.esc_applied(esc),
            final(self).pending() is None,
            final(state).wf(),
    {
        self.flush_print(state);
        match esc {
            Esc::Code(EscCode::DecApplicationKeyPad) => state.set_flag(
                ModeFlag::ApplicationKeypad,
                true,
            ),
            Esc::Code(EscCode::DecNormalKeyPad) => state.set_flag(ModeFlag::ApplicationKeypad, false),
            Esc::Code(EscCode::ReverseIndex) => state.c1_reverse_index(),
            Esc::Code(EscCode::Index) => state.c1_index(),
            Esc::Code(EscCode::NextLine) => state.c1_nel(),
            Esc::Code(EscCode::HorizontalTabSet) => state.c1_hts(),
            Esc::Code(EscCode::DecLineDrawing) => state.set_flag(ModeFlag::LineDrawing, true),
            Esc::Code(EscCode::AsciiCharacterSet) => state.set_flag(ModeFlag::LineDrawing, false),
            Esc::Code(EscCode::DecSaveCursorPosition) => state.save_cursor(),
            Esc::Code(EscCode::DecRestoreCursorPosition) => state.restore_cursor(),
            _ => {},
        }
    }

    fn osc_dispatch(&mut self, state: &mut TerminalState, osc: OperatingSystemCommand)
        requires
            old(state).wf(),
        ensures
            final(state)@ == old(self).engine(old(state)).flushed().state.osc_applied(osc@),
            final(self).pending() is None,
            final(state).wf(),
    {
        self.flush_print(state);
        state.perform_osc(osc);
    }

    /// Performs one action.
    pub fn perform(&mut self, state: &mut TerminalState, action: Action)
        requires
            old(state).wf(),
        ensures
            final(self).engine(final(state)) == old(self).engine(old(state)).performed(action@),
            final(state).wf(),
    {
        proof {
            reveal(EngineView::performed);
            reveal(crate::model::StateView::action_applied);
        }
        match action {
            Action::Print(c) => self.print(c),
            Action::Control(code) => self.control(state, code),
            Action::DeviceControl(_) => {},
            Action::OperatingSystemCommand(osc) => self.osc_dispatch(state, osc),
            Action::Esc(esc) => self.esc_dispatch(state, esc),
            Action::CSI(csi) => self.csi_dispatch(state, csi),
        }
    }

    /// Performs a list of actions, in turn.
    pub fn perform_all(&mut self, state: &mut TerminalState, actions: Vec<Action>)
        requires
            old(state).wf(),
        ensures
            final(self).engine(final(state)) == old(self).engine(old(state)).performed_all(
                views(actions@),
                actions@.len() as int,
            ),
            final(state).wf(),
    {
        let mut actions = actions;
        let ghost all = views(actions@);
        let total = actions.len();
        let mut done: usize = 0;
        proof {
            assert(all.subrange(0, all.len() as int) =~= all);
        }
        while actions.len() > 0
            invariant
                state.wf(),
                done + actions@.len() == all.len(),
                all.len() == total,
                views(actions@) == all.subrange(done as int, all.len() as int),
                self.engine(state) == old(self).engine(old(state)).performed_all(all, done as int),
            decreases actions.len(),
        {
            let ghost before = actions@;
            proof {
                crate::views::lemma_views_remove(before, 0);
                assert(views(before)[0] == all[done as int]);
                assert(views(before).remove(0) =~= all.subrange(done + 1, all.len() as int));
            }
            let action = actions.remove(0);
            self.perform(state, action);
            done = done + 1;
        }
    }
}

} // verus!
