use miro_term::cell::Blink;
use miro_term::cell::ColorSpec;
use miro_term::cell::Intensity;
use miro_term::cell::RgbColor;
use miro_term::cell::Underline;
use miro_term::escape::csi::Cursor;
use miro_term::escape::csi::DecPrivateMode;
use miro_term::escape::csi::DecPrivateModeCode;
use miro_term::escape::csi::Device;
use miro_term::escape::csi::Edit;
use miro_term::escape::csi::EraseInDisplay;
use miro_term::escape::csi::EraseInLine;
use miro_term::escape::csi::Mode;
use miro_term::escape::csi::Sgr;
use miro_term::escape::csi::TerminalMode;
use miro_term::escape::csi::TerminalModeCode;
use miro_term::escape::csi::Window;
use miro_term::escape::csi::CSI;
use miro_term::escape::esc::Esc;
use miro_term::escape::esc::EscCode;
use miro_term::escape::osc::ChangeColorPair;
use miro_term::escape::osc::ColorOrQuery;
use miro_term::escape::osc::DynamicColorNumber;
use miro_term::escape::osc::OperatingSystemCommand;
use miro_term::escape::osc::Selection;
use miro_term::escape::Action;
use miro_term::escape::ControlCode;
use miro_term::escape::DeviceControlMode;
use miro_term::escape::OneBased;
use miro_term::image::Image;
use miro_term::parser::ActionLog;
use miro_term::parser::Parser;
use miro_term::selection::intersects_range;
use miro_term::selection::SelectionCoordinate;
use miro_term::selection::SelectionRange;
use miro_term::tabstop::TabStop;

fn sgrs(list: &[CSI]) -> Vec<Sgr> {
    list.iter()
        .map(|c| match c {
            CSI::Sgr(s) => *s,
            other => panic!("unexpected {:?}", other),
        })
        .collect()
}

fn osc(parts: &[&[u8]]) -> OperatingSystemCommand {
    let owned: Vec<Vec<u8>> = parts.iter().map(|p| p.to_vec()).collect();
    OperatingSystemCommand::parse(&owned)
}

fn text(chars: &[char]) -> String {
    chars.iter().collect()
}

#[test]
fn sgr_expands_into_one_op_per_attribute() {
    let list = CSI::parse(&[1, 4, 31], &[], false, b'm');
    assert_eq!(
        sgrs(&list),
        vec![
            Sgr::Intensity(Intensity::Bold),
            Sgr::Underline(Underline::Single),
            Sgr::Foreground(ColorSpec::PaletteIndex(1)),
        ]
    );
    assert_eq!(sgrs(&CSI::parse(&[], &[], false, b'm')), vec![Sgr::Reset]);
    assert_eq!(
        sgrs(&CSI::parse(&[0, 21, 6, 97, 100], &[], false, b'm')),
        vec![
            Sgr::Reset,
            Sgr::Underline(Underline::Double),
            Sgr::Blink(Blink::Rapid),
            Sgr::Foreground(ColorSpec::PaletteIndex(15)),
            Sgr::Background(ColorSpec::PaletteIndex(8)),
        ]
    );
    assert_eq!(
        sgrs(&CSI::parse(&[38, 5, 100, 48, 2, 9, 8, 7, 22], &[], false, b'm')),
        vec![
            Sgr::Foreground(ColorSpec::PaletteIndex(100)),
            Sgr::Background(ColorSpec::TrueColor(RgbColor { red: 9, green: 8, blue: 7 })),
            Sgr::Intensity(Intensity::Normal),
        ]
    );
}

#[test]
fn unknown_sgr_keeps_the_rest_as_it_came() {
    let list = CSI::parse(&[1, 99, 4], &[], false, b'm');
    assert_eq!(list.len(), 2);
    assert!(matches!(&list[0], CSI::Sgr(Sgr::Intensity(Intensity::Bold))));
    match &list[1] {
        CSI::Unspecified(u) => {
            assert_eq!(u.params, vec![99, 4]);
            assert_eq!(u.control, b'm');
            assert!(u.intermediates.is_empty());
        }
        other => panic!("unexpected {:?}", other),
    }
    let list = CSI::parse(&[38, 5], &[], false, b'm');
    assert!(matches!(&list[0], CSI::Unspecified(u) if u.params == vec![38, 5]));
}

#[test]
fn cursor_and_edit_sequences() {
    let one = |params: &[i64], control: u8| -> CSI {
        let mut list = CSI::parse(params, &[], false, control);
        assert_eq!(list.len(), 1);
        list.remove(0)
    };
    assert!(matches!(one(&[], b'A'), CSI::Cursor(Cursor::Up(1))));
    assert!(matches!(one(&[0], b'B'), CSI::Cursor(Cursor::Down(1))));
    assert!(matches!(one(&[7], b'C'), CSI::Cursor(Cursor::Right(7))));
    assert!(matches!(one(&[7], b'D'), CSI::Cursor(Cursor::Left(7))));
    match one(&[3, 4], b'H') {
        CSI::Cursor(Cursor::Position { line, col }) => {
            assert_eq!((line.as_one_based(), col.as_one_based()), (3, 4));
            assert_eq!((line.as_zero_based(), col.as_zero_based()), (2, 3));
        }
        other => panic!("unexpected {:?}", other),
    }
    match one(&[5], b'r') {
        CSI::Cursor(Cursor::SetTopAndBottomMargins { top, bottom }) => {
            assert_eq!(top, OneBased::new(5));
            assert_eq!(bottom, OneBased::new(u32::MAX));
        }
        other => panic!("unexpected {:?}", other),
    }
    assert!(matches!(one(&[6], b'n'), CSI::Cursor(Cursor::RequestActivePositionReport)));
    assert!(matches!(one(&[5], b'n'), CSI::Device(Device::StatusReport)));
    assert!(matches!(one(&[], b'c'), CSI::Device(Device::RequestPrimaryDeviceAttributes)));
    assert!(matches!(one(&[], b'J'), CSI::Edit(Edit::EraseInDisplay(EraseInDisplay::EraseToEndOfDisplay))));
    assert!(matches!(one(&[2], b'J'), CSI::Edit(Edit::EraseInDisplay(EraseInDisplay::EraseDisplay))));
    assert!(matches!(one(&[1], b'K'), CSI::Edit(Edit::EraseInLine(EraseInLine::EraseToStartOfLine))));
    assert!(matches!(one(&[3], b'P'), CSI::Edit(Edit::DeleteCharacter(3))));
    assert!(matches!(one(&[3], b'@'), CSI::Edit(Edit::InsertCharacter(3))));
    assert!(matches!(one(&[2], b'S'), CSI::Edit(Edit::ScrollUp(2))));
    assert!(matches!(one(&[2], b'T'), CSI::Edit(Edit::ScrollDown(2))));
    assert!(matches!(one(&[18], b't'), CSI::Window(Window::ReportTextAreaSizeCells)));
    assert!(matches!(
        one(&[8, 24, 80], b't'),
        CSI::Window(Window::ResizeWindowCells { width: Some(80), height: Some(24) })
    ));
    assert!(matches!(one(&[9], b'J'), CSI::Unspecified(_)));
    assert!(matches!(one(&[1, 2], b'A'), CSI::Unspecified(_)));
    assert!(matches!(one(&[-1], b'A'), CSI::Unspecified(_)));
    assert!(matches!(one(&[], b'z'), CSI::Unspecified(_)));
}

#[test]
fn mode_sequences_name_each_mode() {
    let list = CSI::parse(&[1, 1049, 7777], b"?", false, b'h');
    assert_eq!(list.len(), 3);
    assert!(matches!(
        &list[0],
        CSI::Mode(Mode::SetDecPrivateMode(DecPrivateMode::Code(
            DecPrivateModeCode::ApplicationCursorKeys
        )))
    ));
    assert!(matches!(
        &list[1],
        CSI::Mode(Mode::SetDecPrivateMode(DecPrivateMode::Code(
            DecPrivateModeCode::ClearAndEnableAlternateScreen
        )))
    ));
    assert!(matches!(
        &list[2],
        CSI::Mode(Mode::SetDecPrivateMode(DecPrivateMode::Unspecified(7777)))
    ));
    let list = CSI::parse(&[4], &[], false, b'l');
    assert!(matches!(
        &list[0],
        CSI::Mode(Mode::ResetMode(TerminalMode::Code(TerminalModeCode::Insert)))
    ));
    let list = CSI::parse(&[99], &[], false, b'h');
    assert!(matches!(&list[0], CSI::Mode(Mode::SetMode(TerminalMode::Unspecified(99)))));
    let list = CSI::parse(&[], b"?", true, b'h');
    match &list[0] {
        CSI::Unspecified(u) => {
            assert_eq!(u.intermediates, b"?".to_vec());
            assert!(u.ignored_extra_intermediates);
        }
        other => panic!("unexpected {:?}", other),
    }
}

#[test]
fn escape_sequences() {
    assert_eq!(Esc::parse(None, b'D'), Esc::Code(EscCode::Index));
    assert_eq!(Esc::parse(None, b'E'), Esc::Code(EscCode::NextLine));
    assert_eq!(Esc::parse(None, b'M'), Esc::Code(EscCode::ReverseIndex));
    assert_eq!(Esc::parse(None, b'H'), Esc::Code(EscCode::HorizontalTabSet));
    assert_eq!(Esc::parse(None, b'7'), Esc::Code(EscCode::DecSaveCursorPosition));
    assert_eq!(Esc::parse(None, b'8'), Esc::Code(EscCode::DecRestoreCursorPosition));
    assert_eq!(Esc::parse(None, b'='), Esc::Code(EscCode::DecApplicationKeyPad));
    assert_eq!(Esc::parse(None, b'>'), Esc::Code(EscCode::DecNormalKeyPad));
    assert_eq!(Esc::parse(Some(b'('), b'0'), Esc::Code(EscCode::DecLineDrawing));
    assert_eq!(Esc::parse(Some(b'('), b'B'), Esc::Code(EscCode::AsciiCharacterSet));
    assert_eq!(
        Esc::parse(Some(b'#'), b'8'),
        Esc::Unspecified { intermediate: Some(b'#'), control: b'8' }
    );
    assert_eq!(Esc::parse(None, b'!'), Esc::Unspecified { intermediate: None, control: b'!' });
}

#[test]
fn control_codes() {
    assert_eq!(ControlCode::from_u8(0x07), Some(ControlCode::Bell));
    assert_eq!(ControlCode::from_u8(0x0a), Some(ControlCode::LineFeed));
    assert_eq!(ControlCode::from_u8(0x1f), Some(ControlCode::UnitSeparator));
    assert_eq!(ControlCode::from_u8(0x85), Some(ControlCode::NEL));
    assert_eq!(ControlCode::from_u8(0x9f), Some(ControlCode::APC));
    assert_eq!(ControlCode::from_u8(0x20), None);
    assert_eq!(ControlCode::from_u8(0x84), None);
    assert_eq!(ControlCode::from_u8(0x99), None);
    assert_eq!(ControlCode::from_u8(0xff), None);
}

#[test]
fn osc_titles_and_notifications() {
    match osc(&[b"0", b"hello"]) {
        OperatingSystemCommand::SetIconNameAndWindowTitle(t) => assert_eq!(text(&t), "hello"),
        other => panic!("unexpected {:?}", other),
    }
    match osc(&[b"2", "caf\u{e9}".as_bytes()]) {
        OperatingSystemCommand::SetWindowTitle(t) => assert_eq!(text(&t), "caf\u{e9}"),
        other => panic!("unexpected {:?}", other),
    }
    assert!(matches!(osc(&[b"1", b"icon"]), OperatingSystemCommand::SetIconName(_)));
    assert!(matches!(osc(&[b"9", b"ding"]), OperatingSystemCommand::SystemNotification(_)));
    match osc(&[b"2", b"\xff\xfe"]) {
        OperatingSystemCommand::Unspecified(raw) => {
            assert_eq!(raw, vec![b"2".to_vec(), b"\xff\xfe".to_vec()])
        }
        other => panic!("unexpected {:?}", other),
    }
    assert!(matches!(osc(&[]), OperatingSystemCommand::Unspecified(_)));
    assert!(matches!(osc(&[b"0"]), OperatingSystemCommand::Unspecified(_)));
    assert!(matches!(osc(&[b"abc", b"x"]), OperatingSystemCommand::Unspecified(_)));
    assert!(matches!(osc(&[b"777", b"x"]), OperatingSystemCommand::Unspecified(_)));
}

#[test]
fn osc_hyperlinks() {
    match osc(&[b"8", b"id=foo:x=y", b"http://a.b"]) {
        OperatingSystemCommand::SetHyperlink(Some(link)) => {
            assert_eq!(text(link.uri()), "http://a.b");
            assert_eq!(link.id().as_ref().map(|i| text(i)), Some("foo".to_string()));
            assert!(!link.is_implicit());
        }
        other => panic!("unexpected {:?}", other),
    }
    match osc(&[b"8", b"", b"http://a.b"]) {
        OperatingSystemCommand::SetHyperlink(Some(link)) => assert!(link.id().is_none()),
        other => panic!("unexpected {:?}", other),
    }
    assert!(matches!(osc(&[b"8", b"", b""]), OperatingSystemCommand::SetHyperlink(None)));
    assert!(matches!(osc(&[b"8", b""]), OperatingSystemCommand::Unspecified(_)));
}

#[test]
fn osc_selection_uses_base64() {
    match osc(&[b"52", b"c", b"aGVsbG8gd29ybGQ="]) {
        OperatingSystemCommand::SetSelection(sel, data) => {
            assert_eq!(sel, Selection { bits: 2 });
            assert_eq!(text(&data), "hello world");
        }
        other => panic!("unexpected {:?}", other),
    }
    assert!(matches!(
        osc(&[b"52", b"p"]),
        OperatingSystemCommand::ClearSelection(Selection { bits: 4 })
    ));
    assert!(matches!(
        osc(&[b"52", b"", b"?"]),
        OperatingSystemCommand::QuerySelection(Selection { bits: 24 })
    ));
    assert!(matches!(
        osc(&[b"52", b"cs07"]),
        OperatingSystemCommand::ClearSelection(Selection { bits: 2074 })
    ));
    assert!(matches!(osc(&[b"52", b"c", b"!!!"]), OperatingSystemCommand::Unspecified(_)));
    assert!(matches!(osc(&[b"52", b"z"]), OperatingSystemCommand::Unspecified(_)));
}

#[test]
fn osc_colours() {
    match osc(&[b"4", b"1", b"#ff0080", b"255", b"?", b"3"]) {
        OperatingSystemCommand::ChangeColorNumber(pairs) => assert_eq!(
            pairs,
            vec![
                ChangeColorPair {
                    palette_index: 1,
                    color: ColorOrQuery::Color(RgbColor { red: 255, green: 0, blue: 128 }),
                },
                ChangeColorPair { palette_index: 255, color: ColorOrQuery::Query },
            ]
        ),
        other => panic!("unexpected {:?}", other),
    }
    assert!(matches!(osc(&[b"4", b"256", b"?"]), OperatingSystemCommand::Unspecified(_)));
    assert!(matches!(osc(&[b"4", b"1", b"red"]), OperatingSystemCommand::Unspecified(_)));
    match osc(&[b"10", b"rgb:12/34/56", b"?", b"rgb:abcd/ef01/2345"]) {
        OperatingSystemCommand::ChangeDynamicColors(first, colors) => {
            assert_eq!(first, DynamicColorNumber::TextForegroundColor);
            assert_eq!(
                colors,
                vec![
                    ColorOrQuery::Color(RgbColor { red: 0x12, green: 0x34, blue: 0x56 }),
                    ColorOrQuery::Query,
                    ColorOrQuery::Color(RgbColor { red: 0xab, green: 0xef, blue: 0x23 }),
                ]
            );
        }
        other => panic!("unexpected {:?}", other),
    }
}

#[test]
fn parser_recognises_split_sequences() {
    let mut p = Parser::new();
    assert!(p.parse_as_vec(b"\x1b[3").is_empty());
    let actions = p.parse_as_vec(b"1mA");
    assert_eq!(actions.len(), 2);
    assert!(matches!(&actions[0], Action::CSI(CSI::Sgr(Sgr::Foreground(ColorSpec::PaletteIndex(1))))));
    assert!(matches!(&actions[1], Action::Print('A')));
    let actions = p.parse_as_vec("\u{e9}".as_bytes());
    assert!(matches!(&actions[0], Action::Print('\u{e9}')));
    let actions = p.parse_as_vec(b"\x07\x1bM\x1b]0;t\x07");
    assert_eq!(actions.len(), 3);
    assert!(matches!(&actions[0], Action::Control(ControlCode::Bell)));
    assert!(matches!(&actions[1], Action::Esc(Esc::Code(EscCode::ReverseIndex))));
    assert!(matches!(
        &actions[2],
        Action::OperatingSystemCommand(OperatingSystemCommand::SetIconNameAndWindowTitle(_))
    ));
}

#[test]
fn parser_decodes_parameters_and_intermediates() {
    let mut p = Parser::new();
    let actions = p.parse_as_vec(b"\x1b[;5H\x1b[?25l\x1b[2 q\x1b[1;z");
    assert_eq!(actions.len(), 4);
    match &actions[0] {
        Action::CSI(CSI::Cursor(Cursor::Position { line, col })) => {
            assert_eq!((line.as_one_based(), col.as_one_based()), (1, 5))
        }
        other => panic!("unexpected {:?}", other),
    }
    assert!(matches!(
        &actions[1],
        Action::CSI(CSI::Mode(Mode::ResetDecPrivateMode(DecPrivateMode::Code(
            DecPrivateModeCode::ShowCursor
        ))))
    ));
    assert!(matches!(&actions[2], Action::CSI(CSI::Cursor(Cursor::CursorStyle(_)))));
    match &actions[3] {
        Action::CSI(CSI::Unspecified(u)) => {
            assert_eq!(u.params, vec![1, 0]);
            assert_eq!(u.control, b'z');
        }
        other => panic!("unexpected {:?}", other),
    }
}

#[test]
fn parser_recovers_from_malformed_sequences() {
    let mut p = Parser::new();
    let actions = p.parse_as_vec(b"\x1b[12\x18ab\x1b[\x1b[1mc\xc3\x28d");
    let printed: String = actions
        .iter()
        .filter_map(|a| match a {
            Action::Print(c) => Some(*c),
            _ => None,
        })
        .collect();
    assert_eq!(printed, "abc\u{fffd}d");
    assert!(actions.iter().any(|a| matches!(a, Action::CSI(CSI::Sgr(Sgr::Intensity(Intensity::Bold))))));
    let actions = p.parse_as_vec(b"x\xffy");
    let printed: String = actions
        .iter()
        .filter_map(|a| match a {
            Action::Print(c) => Some(*c),
            _ => None,
        })
        .collect();
    assert_eq!(printed, "xy");
}

#[test]
fn parser_device_control_strings() {
    let mut p = Parser::new();
    let actions = p.parse_as_vec(b"\x1bP1;2$qab\x1b\\");
    assert!(matches!(
        &actions[0],
        Action::DeviceControl(DeviceControlMode::Enter { byte: b'q', .. })
    ));
    assert!(matches!(&actions[1], Action::DeviceControl(DeviceControlMode::Data(b'a'))));
    assert!(matches!(&actions[2], Action::DeviceControl(DeviceControlMode::Data(b'b'))));
    assert!(matches!(&actions[3], Action::DeviceControl(DeviceControlMode::Exit)));
}

#[test]
fn parse_first_reports_consumed_length() {
    let mut p = Parser::new();
    let (action, used) = p.parse_first(b"\x1b[1;4mrest").unwrap();
    assert_eq!(used, 6);
    assert!(matches!(action, Action::CSI(CSI::Sgr(Sgr::Intensity(Intensity::Bold)))));
    let mut p = Parser::new();
    let (actions, used) = p.parse_first_as_vec(b"\x1b[1;4mrest").unwrap();
    assert_eq!(used, 6);
    assert_eq!(actions.len(), 2);
    let mut p = Parser::new();
    assert!(p.parse_first(b"\x1b[1;4").is_none());
    let (action, used) = p.parse_first(b"mx").unwrap();
    assert_eq!(used, 1);
    assert!(matches!(action, Action::CSI(CSI::Sgr(Sgr::Intensity(Intensity::Bold)))));
    let mut p = Parser::new();
    assert!(p.parse_first(b"").is_none());
    let (action, used) = p.parse_first(b"hello").unwrap();
    assert_eq!(used, 1);
    assert!(matches!(action, Action::Print('h')));
}

#[test]
fn selection_ranges() {
    let c = |x, y| SelectionCoordinate { x, y };
    let sel = SelectionRange::start(c(5, 2)).extend(c(3, 0));
    assert_eq!(sel.normalize(), SelectionRange { start: c(3, 0), end: c(5, 2) });
    assert_eq!(sel.rows(), 0..3);
    assert_eq!(sel.cols_for_row(0), 3..usize::MAX);
    assert_eq!(sel.cols_for_row(1), 0..usize::MAX);
    assert_eq!(sel.cols_for_row(2), 0..6);
    assert_eq!(sel.cols_for_row(3), 0..0);
    let one = SelectionRange { start: c(7, 1), end: c(2, 1) };
    assert_eq!(one.cols_for_row(1), 2..8);
    assert!(intersects_range(0..5, 4..9));
    assert!(!intersects_range(0..5, 5..9));
    assert!(!intersects_range(3..3, 0..9));
}

#[test]
fn tab_stops() {
    let mut tabs = TabStop::new(20, 8);
    assert_eq!(tabs.find_next_tab_stop(0), Some(8));
    assert_eq!(tabs.find_next_tab_stop(8), Some(16));
    assert_eq!(tabs.find_next_tab_stop(16), None);
    tabs.set_tab_stop(3);
    assert_eq!(tabs.find_next_tab_stop(0), Some(3));
    tabs.resize(30);
    assert_eq!(tabs.len(), 30);
    assert_eq!(tabs.find_next_tab_stop(16), Some(24));
    assert_eq!(tabs.find_next_tab_stop(0), Some(3));
    tabs.resize(10);
    assert_eq!(tabs.len(), 30);
}

#[test]
fn image_swaps_red_and_blue() {
    let image = Image::new(2, 3);
    assert_eq!((image.width(), image.height()), (2, 3));
    assert_eq!(image.data(), &vec![0u8; 24]);
    let source: Vec<u8> = vec![
        1, 2, 3, 4, 5, 6, 7, 8, 99, 99, //
        11, 12, 13, 14, 15, 16, 17, 18, 99, 99,
    ];
    let image = Image::with_rgba32(2, 2, 10, &source);
    assert_eq!(
        image.data(),
        &vec![3, 2, 1, 4, 7, 6, 5, 8, 13, 12, 11, 14, 17, 16, 15, 18]
    );
    let short: Vec<u8> = vec![1, 2, 3, 4, 9, 9, 9, 9, 5, 6, 7, 8];
    let image = Image::with_rgba32(1, 2, 8, &short);
    assert_eq!((image.width(), image.height()), (1, 2));
    assert_eq!(image.data(), &vec![3, 2, 1, 4, 7, 6, 5, 8]);
}

#[test]
fn parse_hands_actions_to_sink() {
    let mut p = Parser::new();
    let mut log = ActionLog::new();
    p.parse(b"a\x1b[1;", &mut log);
    p.parse(b"4mb", &mut log);
    let seen = log.actions;
    assert_eq!(seen.len(), 4);
    assert!(matches!(&seen[0], Action::Print('a')));
    assert!(matches!(&seen[1], Action::CSI(CSI::Sgr(Sgr::Intensity(Intensity::Bold)))));
    assert!(matches!(&seen[2], Action::CSI(CSI::Sgr(Sgr::Underline(Underline::Single)))));
    assert!(matches!(&seen[3], Action::Print('b')));
}
