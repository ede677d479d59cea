use miro_term::host::HostRequest;
use miro_term::host::TermError;
use miro_term::input::KeyCode;
use miro_term::input::KeyModifiers;
use miro_term::input::MouseButton;
use miro_term::input::MouseEvent;
use miro_term::input::MouseEventKind;
use miro_term::selection::SelectionCoordinate;
use miro_term::selection::SelectionRange;
use miro_term::terminal::Terminal;

fn term(rows: usize, cols: usize, scrollback: usize) -> Terminal {
    Terminal::new(rows, cols, 800, 600, scrollback, Vec::new())
}

fn mods(shift: bool, alt: bool, ctrl: bool) -> KeyModifiers {
    KeyModifiers { shift, alt, ctrl, super_key: false }
}

fn key(t: &mut Terminal, code: KeyCode, m: KeyModifiers) -> Vec<u8> {
    let mut out = Vec::new();
    t.state_mut().key_down(code, m, &mut out).unwrap();
    out
}

fn mouse(kind: MouseEventKind, button: MouseButton, x: usize, y: i64) -> MouseEvent {
    MouseEvent { kind, x, y, button, modifiers: KeyModifiers::new() }
}

fn click(t: &mut Terminal, x: usize, y: i64, now: u64) {
    t.state_mut().mouse_event(mouse(MouseEventKind::Press, MouseButton::Left, x, y), now).unwrap();
    t.state_mut().mouse_event(mouse(MouseEventKind::Release, MouseButton::Left, x, y), now).unwrap();
}

fn clipboard_texts(requests: &[HostRequest]) -> Vec<Option<String>> {
    requests
        .iter()
        .filter_map(|r| match r {
            HostRequest::SetClipboard(text) => {
                Some(text.as_ref().map(|t| t.iter().collect::<String>()))
            }
            _ => None,
        })
        .collect()
}

#[test]
fn function_keys_carry_modifier_numbers() {
    let mut t = term(3, 10, 0);
    let none = mods(false, false, false);
    assert_eq!(key(&mut t, KeyCode::Function(1), none), b"\x1bOP");
    assert_eq!(key(&mut t, KeyCode::Function(4), none), b"\x1bOS");
    assert_eq!(key(&mut t, KeyCode::Function(5), none), b"\x1b[15~");
    assert_eq!(key(&mut t, KeyCode::Function(6), none), b"\x1b[17~");
    assert_eq!(key(&mut t, KeyCode::Function(10), none), b"\x1b[21~");
    assert_eq!(key(&mut t, KeyCode::Function(11), none), b"\x1b[23~");
    assert_eq!(key(&mut t, KeyCode::Function(12), none), b"\x1b[24~");
    assert_eq!(key(&mut t, KeyCode::Function(1), mods(true, false, false)), b"\x1b[11;2~");
    assert_eq!(key(&mut t, KeyCode::Function(2), mods(false, true, false)), b"\x1b[12;3~");
    assert_eq!(key(&mut t, KeyCode::Function(3), mods(true, true, false)), b"\x1b[13;4~");
    assert_eq!(key(&mut t, KeyCode::Function(4), mods(false, false, true)), b"\x1b[14;5~");
    assert_eq!(key(&mut t, KeyCode::Function(7), mods(true, false, true)), b"\x1b[18;6~");
    assert_eq!(key(&mut t, KeyCode::Function(8), mods(false, true, true)), b"\x1b[19;7~");
    assert_eq!(key(&mut t, KeyCode::Function(9), mods(true, true, true)), b"\x1b[20;8~");
}

#[test]
fn unhandled_function_key_is_an_error() {
    let mut t = term(3, 10, 0);
    let mut out = vec![1u8];
    let r = t.state_mut().key_down(KeyCode::Function(13), KeyModifiers::new(), &mut out);
    assert_eq!(r, Err(TermError::UnhandledFunctionKey(13)));
    assert_eq!(out, vec![1u8]);
    let r = t.state_mut().key_down(KeyCode::Function(0), KeyModifiers::new(), &mut out);
    assert_eq!(r, Err(TermError::UnhandledFunctionKey(0)));
}

#[test]
fn arrows_follow_application_cursor_mode() {
    let mut t = term(3, 10, 0);
    let none = KeyModifiers::new();
    assert_eq!(key(&mut t, KeyCode::UpArrow, none), b"\x1b[A");
    assert_eq!(key(&mut t, KeyCode::LeftArrow, none), b"\x1b[D");
    assert_eq!(key(&mut t, KeyCode::Home, none), b"\x1b[H");
    assert_eq!(key(&mut t, KeyCode::End, none), b"\x1b[F");
    assert_eq!(key(&mut t, KeyCode::ApplicationDownArrow, none), b"\x1bOB");
    assert_eq!(key(&mut t, KeyCode::RightArrow, mods(false, true, false)), b"\x1b\x1b[C");
    t.advance_bytes(b"\x1b[?1h");
    assert_eq!(key(&mut t, KeyCode::UpArrow, none), b"\x1bOA");
    assert_eq!(key(&mut t, KeyCode::DownArrow, none), b"\x1bOB");
    assert_eq!(key(&mut t, KeyCode::Home, none), b"\x1bOH");
    assert_eq!(key(&mut t, KeyCode::End, none), b"\x1bOF");
    assert_eq!(key(&mut t, KeyCode::RightArrow, mods(false, true, false)), b"\x1b\x1b[C");
}

#[test]
fn characters_and_control_keys() {
    let mut t = term(3, 10, 0);
    let none = KeyModifiers::new();
    assert_eq!(key(&mut t, KeyCode::Char('a'), none), b"a");
    assert_eq!(key(&mut t, KeyCode::Char('\u{e9}'), none), "\u{e9}".as_bytes());
    assert_eq!(key(&mut t, KeyCode::Char('\u{4e16}'), none), "\u{4e16}".as_bytes());
    assert_eq!(key(&mut t, KeyCode::Char('x'), mods(false, true, false)), b"\x1bx");
    assert_eq!(key(&mut t, KeyCode::Char('c'), mods(false, false, true)), b"\x03");
    assert_eq!(key(&mut t, KeyCode::Char('C'), mods(true, false, true)), b"\x03");
    assert_eq!(key(&mut t, KeyCode::Char('\x7f'), none), b"\x7f");
    assert_eq!(key(&mut t, KeyCode::Delete, none), b"\x7f");
    assert_eq!(key(&mut t, KeyCode::Tab, none), b"\t");
    assert_eq!(key(&mut t, KeyCode::Enter, none), b"\r");
    assert_eq!(key(&mut t, KeyCode::Escape, none), b"\x1b");
    assert_eq!(key(&mut t, KeyCode::Backspace, none), b"\x08");
    assert_eq!(key(&mut t, KeyCode::Backspace, mods(false, true, false)), b"\x1b\x08");
    assert_eq!(key(&mut t, KeyCode::Insert, none), b"\x1b[2~");
    assert_eq!(key(&mut t, KeyCode::PageUp, none), b"\x1b[5~");
    assert_eq!(key(&mut t, KeyCode::PageDown, none), b"\x1b[6~");
    assert_eq!(key(&mut t, KeyCode::LeftShift, none), b"");
    assert_eq!(key(&mut t, KeyCode::Numpad5, none), b"");
}

#[test]
fn shift_page_keys_scroll_and_typing_returns() {
    let mut t = term(2, 10, 20);
    for i in 0..8 {
        t.advance_bytes(format!("l{}\r\n", i).as_bytes());
    }
    assert_eq!(t.state().viewport_offset(), 0);
    assert_eq!(key(&mut t, KeyCode::PageUp, mods(true, false, false)), b"");
    assert_eq!(t.state().viewport_offset(), 2);
    assert_eq!(key(&mut t, KeyCode::PageUp, mods(true, false, false)), b"");
    assert_eq!(t.state().viewport_offset(), 4);
    assert_eq!(t.state().cursor_pos().y, 5);
    assert_eq!(key(&mut t, KeyCode::PageDown, mods(true, false, false)), b"");
    assert_eq!(t.state().viewport_offset(), 2);
    assert_eq!(key(&mut t, KeyCode::LeftControl, KeyModifiers::new()), b"");
    assert_eq!(t.state().viewport_offset(), 2);
    assert_eq!(key(&mut t, KeyCode::Char('a'), KeyModifiers::new()), b"a");
    assert_eq!(t.state().viewport_offset(), 0);
    t.state_mut().scroll_viewport(-100);
    assert_eq!(t.state().viewport_offset(), 7);
    t.state_mut().scroll_viewport(3);
    assert_eq!(t.state().viewport_offset(), 4);
}

#[test]
fn paste_is_bracketed_when_asked() {
    let mut t = term(2, 10, 0);
    let mut out = Vec::new();
    t.state_mut().send_paste("hi \u{e9}", &mut out).unwrap();
    assert_eq!(out, "hi \u{e9}".as_bytes());
    t.advance_bytes(b"\x1b[?2004h");
    let mut out = Vec::new();
    t.state_mut().send_paste("hi", &mut out).unwrap();
    assert_eq!(out, b"\x1b[200~hi\x1b[201~");
}

#[test]
fn double_click_selects_word() {
    let mut t = term(3, 20, 0);
    t.advance_bytes(b"hello world");
    click(&mut t, 1, 0, 1000);
    t.take_requests();
    t.state_mut()
        .mouse_event(mouse(MouseEventKind::Press, MouseButton::Left, 1, 0), 1100)
        .unwrap();
    assert_eq!(t.state().get_selection_text(), "hello");
    assert_eq!(
        t.state().selection_range(),
        Some(SelectionRange {
            start: SelectionCoordinate { x: 0, y: 0 },
            end: SelectionCoordinate { x: 4, y: 0 },
        })
    );
    let requests = t.take_requests();
    assert_eq!(clipboard_texts(&requests), vec![Some("hello".to_string())]);
}

#[test]
fn double_click_follows_wrapped_word() {
    let mut t = term(3, 5, 0);
    t.advance_bytes(b"ab cdefgh ij");
    assert_eq!(t.state().screen().line(0).as_str(), "ab cd");
    click(&mut t, 3, 0, 0);
    t.state_mut().mouse_event(mouse(MouseEventKind::Press, MouseButton::Left, 3, 0), 10).unwrap();
    assert_eq!(t.state().get_selection_text(), "cdefgh");
}

#[test]
fn slow_second_click_is_single() {
    let mut t = term(3, 20, 0);
    t.advance_bytes(b"hello world");
    click(&mut t, 1, 0, 1000);
    t.state_mut()
        .mouse_event(mouse(MouseEventKind::Press, MouseButton::Left, 1, 0), 1501)
        .unwrap();
    assert_eq!(t.state().get_selection_text(), "");
    assert_eq!(t.state().selection_range(), None);
}

#[test]
fn triple_click_selects_line() {
    let mut t = term(3, 20, 0);
    t.advance_bytes(b"hello world\r\nnext");
    click(&mut t, 2, 0, 0);
    click(&mut t, 2, 0, 100);
    t.state_mut().mouse_event(mouse(MouseEventKind::Press, MouseButton::Left, 2, 0), 200).unwrap();
    assert_eq!(t.state().get_selection_text(), "hello world");
    t.state_mut().mouse_event(mouse(MouseEventKind::Release, MouseButton::Left, 2, 0), 200).unwrap();
    t.state_mut().mouse_event(mouse(MouseEventKind::Press, MouseButton::Left, 2, 0), 300).unwrap();
    assert_eq!(t.state().selection_range(), None);
}

#[test]
fn drag_selects_across_lines() {
    let mut t = term(3, 10, 0);
    t.advance_bytes(b"first\r\nsecond\r\nthird");
    t.state_mut().mouse_event(mouse(MouseEventKind::Press, MouseButton::Left, 2, 0), 0).unwrap();
    t.state_mut().mouse_event(mouse(MouseEventKind::Move, MouseButton::NoButton, 3, 1), 5).unwrap();
    assert_eq!(t.state().get_selection_text(), "rst\nseco");
    t.state_mut().mouse_event(mouse(MouseEventKind::Move, MouseButton::NoButton, 1, 2), 6).unwrap();
    assert_eq!(t.state().get_selection_text(), "rst\nsecond\nth");
    t.take_requests();
    t.state_mut().mouse_event(mouse(MouseEventKind::Release, MouseButton::Left, 1, 2), 7).unwrap();
    let requests = t.take_requests();
    assert_eq!(clipboard_texts(&requests), vec![Some("rst\nsecond\nth".to_string())]);
    let dirty = t.state().get_dirty_lines();
    assert_eq!(dirty[0].2, 2..usize::MAX);
    assert_eq!(dirty[1].2, 0..usize::MAX);
    assert_eq!(dirty[2].2, 0..2);
}

#[test]
fn erase_in_line_clears_selection() {
    let mut t = term(3, 10, 0);
    t.advance_bytes(b"first\r\nsecond");
    t.state_mut().mouse_event(mouse(MouseEventKind::Press, MouseButton::Left, 1, 1), 0).unwrap();
    t.state_mut().mouse_event(mouse(MouseEventKind::Move, MouseButton::NoButton, 4, 1), 5).unwrap();
    assert_eq!(t.state().get_selection_text(), "econ");
    t.advance_bytes(b"\x1b[1;1H\x1b[K");
    assert_eq!(t.state().get_selection_text(), "econ");
    t.advance_bytes(b"\x1b[2;3H\x1b[K");
    assert_eq!(t.state().selection_range(), None);
    assert_eq!(t.state().get_selection_text(), "");
}

#[test]
fn erase_display_clears_selection_and_dirties() {
    let mut t = term(3, 10, 0);
    t.advance_bytes(b"first\r\nsecond\r\nthird");
    t.state_mut().mouse_event(mouse(MouseEventKind::Press, MouseButton::Left, 1, 2), 0).unwrap();
    t.state_mut().mouse_event(mouse(MouseEventKind::Move, MouseButton::NoButton, 3, 2), 5).unwrap();
    assert!(t.state().selection_range().is_some());
    t.state_mut().clean_dirty_lines();
    t.advance_bytes(b"\x1b[2J");
    assert_eq!(t.state().selection_range(), None);
    let dirty = t.state().get_dirty_lines();
    let rows: Vec<usize> = dirty.iter().map(|d| d.0).collect();
    assert_eq!(rows, vec![0, 1, 2]);
    for d in dirty.iter() {
        assert_eq!(d.1.as_str().trim_end(), "");
    }
}

#[test]
fn printing_over_selection_clears_it() {
    let mut t = term(3, 10, 0);
    t.advance_bytes(b"first");
    t.state_mut().mouse_event(mouse(MouseEventKind::Press, MouseButton::Left, 1, 0), 0).unwrap();
    t.state_mut().mouse_event(mouse(MouseEventKind::Move, MouseButton::NoButton, 3, 0), 5).unwrap();
    t.advance_bytes(b"\x1b[1;8Hx");
    assert!(t.state().selection_range().is_some());
    t.advance_bytes(b"\x1b[1;3Hx");
    assert_eq!(t.state().selection_range(), None);
}

#[test]
fn mouse_reports_in_sgr_mode() {
    let mut t = term(5, 10, 0);
    t.advance_bytes(b"\x1b[?1006h\x1b[?1002h");
    t.state_mut().mouse_event(mouse(MouseEventKind::Press, MouseButton::Left, 2, 3), 0).unwrap();
    t.state_mut().mouse_event(mouse(MouseEventKind::Move, MouseButton::NoButton, 3, 3), 1).unwrap();
    t.state_mut().mouse_event(mouse(MouseEventKind::Release, MouseButton::Left, 3, 3), 2).unwrap();
    t.state_mut().mouse_event(mouse(MouseEventKind::Press, MouseButton::WheelUp(1), 0, 0), 3).unwrap();
    t.state_mut()
        .mouse_event(mouse(MouseEventKind::Press, MouseButton::WheelDown(1), 99, 99), 4)
        .unwrap();
    t.state_mut().mouse_event(mouse(MouseEventKind::Press, MouseButton::Right, 1, 1), 5).unwrap();
    let requests = t.take_requests();
    let written: Vec<Vec<u8>> = requests
        .iter()
        .map(|r| match r {
            HostRequest::Write(b) => b.clone(),
            other => panic!("unexpected request {:?}", other),
        })
        .collect();
    assert_eq!(
        written,
        vec![
            b"\x1b[<0;3;4M".to_vec(),
            b"\x1b[<32;4;4M".to_vec(),
            b"\x1b[<3;4;4m".to_vec(),
            b"\x1b[<64;1;1M".to_vec(),
            b"\x1b[<65;10;5M".to_vec(),
            b"\x1b[<2;2;2M".to_vec(),
        ]
    );
}

#[test]
fn wheel_scrolls_or_sends_arrows() {
    let mut t = term(2, 10, 20);
    for i in 0..8 {
        t.advance_bytes(format!("l{}\r\n", i).as_bytes());
    }
    t.state_mut().mouse_event(mouse(MouseEventKind::Press, MouseButton::WheelUp(3), 0, 0), 0).unwrap();
    assert_eq!(t.state().viewport_offset(), 3);
    t.state_mut()
        .mouse_event(mouse(MouseEventKind::Press, MouseButton::WheelDown(1), 0, 0), 1)
        .unwrap();
    assert_eq!(t.state().viewport_offset(), 2);
    assert!(t.take_requests().is_empty());
    t.advance_bytes(b"\x1b[?47h");
    t.state_mut().mouse_event(mouse(MouseEventKind::Press, MouseButton::WheelUp(5), 0, 0), 2).unwrap();
    t.state_mut()
        .mouse_event(mouse(MouseEventKind::Press, MouseButton::WheelDown(5), 0, 0), 3)
        .unwrap();
    let requests = t.take_requests();
    assert_eq!(requests.len(), 2);
    assert!(matches!(&requests[0], HostRequest::Write(b) if b == b"\x1b[A"));
    assert!(matches!(&requests[1], HostRequest::Write(b) if b == b"\x1b[B"));
}

#[test]
fn middle_button_asks_for_paste() {
    let mut t = term(2, 10, 0);
    t.state_mut().mouse_event(mouse(MouseEventKind::Press, MouseButton::Middle, 0, 0), 0).unwrap();
    let requests = t.take_requests();
    assert_eq!(requests.len(), 1);
    assert!(matches!(&requests[0], HostRequest::PasteClipboard));
}

#[test]
fn click_on_link_opens_it() {
    let mut t = term(2, 20, 0);
    t.advance_bytes(b"\x1b]8;;http://example.com\x1b\\link\x1b]8;;\x1b\\ text");
    t.state_mut().mouse_event(mouse(MouseEventKind::Move, MouseButton::NoButton, 1, 0), 0).unwrap();
    let link = t.state().current_highlight().expect("link under the mouse");
    assert_eq!(link.uri().iter().collect::<String>(), "http://example.com");
    assert!(link.id().is_none());
    click(&mut t, 1, 0, 10);
    let requests = t.take_requests();
    let clicked: Vec<String> = requests
        .iter()
        .filter_map(|r| match r {
            HostRequest::ClickLink(l) => Some(l.uri().iter().collect::<String>()),
            _ => None,
        })
        .collect();
    assert_eq!(clicked, vec!["http://example.com".to_string()]);
    t.state_mut().mouse_event(mouse(MouseEventKind::Move, MouseButton::NoButton, 6, 0), 20).unwrap();
    assert!(t.state().current_highlight().is_none());
}

#[test]
fn second_click_within_interval_is_double() {
    let mut t = term(3, 20, 0);
    t.advance_bytes(b"hello world");
    click(&mut t, 7, 0, 1000);
    t.state_mut()
        .mouse_event(mouse(MouseEventKind::Press, MouseButton::Left, 7, 0), 1500)
        .unwrap();
    assert_eq!(t.state().get_selection_text(), "world");
}

#[test]
fn double_click_on_a_blank_reaches_back_one_cell() {
    let mut t = term(3, 20, 0);
    t.advance_bytes(b"hello world");
    click(&mut t, 5, 0, 0);
    t.state_mut().mouse_event(mouse(MouseEventKind::Press, MouseButton::Left, 5, 0), 10).unwrap();
    assert_eq!(
        t.state().selection_range(),
        Some(SelectionRange {
            start: SelectionCoordinate { x: 5, y: 0 },
            end: SelectionCoordinate { x: 4, y: 0 },
        })
    );
    assert_eq!(t.state().get_selection_text(), "o");
}
