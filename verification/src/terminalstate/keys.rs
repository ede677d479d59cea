//! Key presses and pastes.

use crate::fmt::push_bytes;
use crate::host::TermError;
use crate::input::encode_key;
use crate::input::key_bytes;
use crate::input::KeyCode;
use crate::input::KeyModifiers;
use crate::reply::paste_end;
use crate::reply::paste_start;
use crate::screen::VisibleRowIndex;
use crate::terminalstate::TerminalState;
use vstd::prelude::*;
use vstd::string::StringSliceAdditionalSpecFns;

verus! {

impl TerminalState {
    /// Sends pasted text to the child process, between the paste marks in bracketed paste
    /// mode. The terminal itself stays as it is.
    pub fn send_paste(&mut self, text: &str, writer: &mut Vec<u8>) -> (r: Result<(), TermError>)
        requires
            old(self).wf(),
        ensures
            r is Ok,
            final(writer)@ == old(writer)@ + old(self)@.paste_bytes(text.spec_bytes()),
            final(self)@ == old(self)@,
            final(self).wf(),
    {
        let bytes = text.as_bytes();
        if self.modes.bracketed_paste {
            writer.push(0x1b);
            writer.push(0x5b);
            writer.push(0x32);
            writer.push(0x30);
            writer.push(0x30);
            writer.push(0x7e);
            push_bytes(writer, bytes);
            writer.push(0x1b);
            writer.push(0x5b);
            writer.push(0x32);
            writer.push(0x30);
            writer.push(0x31);
            writer.push(0x7e);
            assert(writer@ =~= old(writer)@ + (paste_start() + text.spec_bytes() + paste_end()));
        } else {
            push_bytes(writer, bytes);
        }
        Ok(())
    }

    fn scroll_pages(&mut self, key: KeyCode, mods: KeyModifiers)
        requires
            old(self).wf(),
        ensures
            final(self)@ == (if crate::input::key_scroll_pages(key, mods) != 0 {
                old(self)@.viewport_scrolled(
                    crate::input::key_scroll_pages(key, mods) * old(self)@.rows(),
                )
            } else {
                old(self)@
            }),
            final(self).wf(),
    {
        let rows = self.screen.active().physical_rows as VisibleRowIndex;
        match key {
            KeyCode::PageUp => {
                if mods.shift {
                    self.scroll_viewport(-rows);
                }
            },
            KeyCode::PageDown => {
                if mods.shift {
                    self.scroll_viewport(rows);
                }
            },
            _ => {},
        }
    }

    /// Handles a key press: sends the bytes that stand for the key to the child process.
    /// Shift with page up or page down scrolls the viewport instead, and a key that sends
    /// something brings the viewport back to the newest lines. A function key without an
    /// escape sequence is an error and changes nothing.
    pub fn key_down(&mut self, key: KeyCode, mods: KeyModifiers, writer: &mut Vec<u8>) -> (r: Result<
        (),
        TermError,
    >)
        requires
            old(self).wf(),
        ensures
            r is Ok == key_bytes(key, mods, old(self)@.modes.application_cursor_keys) is Some,
            r is Ok ==> final(writer)@ == old(writer)@ + key_bytes(
                key,
                mods,
                old(self)@.modes.application_cursor_keys,
            ).unwrap(),
            r is Err ==> final(writer)@ == old(writer)@,
            r is Err ==> (key matches KeyCode::Function(n) && r == Err::<(), TermError>(
                TermError::UnhandledFunctionKey(n),
            )),
            final(self)@ == old(self)@.key_pressed(key, mods),
            final(self).wf(),
    {
        match encode_key(key, mods, self.modes.application_cursor_keys) {
            Some(to_send) => {
                self.scroll_pages(key, mods);
                push_bytes(writer, to_send.as_slice());
                if to_send.len() > 0 && self.viewport_offset != 0 {
                    self.set_scroll_viewport(0);
                }
                Ok(())
            },
            None => {
                match key {
                    KeyCode::Function(n) => Err(TermError::UnhandledFunctionKey(n)),
                    _ => Err(TermError::UnhandledFunctionKey(0)),
                }
            },
        }
    }
}

} // verus!
