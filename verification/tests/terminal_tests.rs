use miro_term::cell::Blink;
use miro_term::cell::CellAttributes;
use miro_term::cell::ColorAttribute;
use miro_term::cell::Intensity;
use miro_term::cell::RgbColor;
use miro_term::cell::Underline;
use miro_term::engine::Cluster;
use miro_term::escape::csi::Cursor;
use miro_term::escape::csi::CSI;
use miro_term::escape::Action;
use miro_term::host::HostRequest;
use miro_term::model::CursorPosition;
use miro_term::parser::Parser;
use miro_term::terminal::Terminal;

fn term(rows: usize, cols: usize, scrollback: usize) -> Terminal {
    Terminal::new(rows, cols, 800, 600, scrollback, Vec::new())
}

fn row_text(t: &Terminal, row: usize) -> String {
    let screen = t.state().screen();
    let idx = screen.lines.len() - screen.physical_rows + row;
    screen.line(idx).as_str().trim_end().to_string()
}

fn cursor(t: &Terminal) -> (usize, i64) {
    let pos = t.state().cursor_pos();
    (pos.x, pos.y)
}

#[test]
fn hello_then_newline() {
    let mut t = term(24, 80, 100);
    t.advance_bytes(b"hello\r\n");
    assert_eq!(cursor(&t), (0, 1));
    assert_eq!(row_text(&t, 0), "hello");
    assert_eq!(row_text(&t, 1), "");
}

#[test]
fn red_then_reset() {
    let mut t = term(24, 80, 100);
    t.advance_bytes(b"\x1b[31mX\x1b[0m");
    let screen = t.state().screen();
    let cell = screen.line(0).cell(0);
    assert_eq!(cell.str(), "X");
    assert_eq!(cell.attrs().foreground, ColorAttribute::PaletteIndex(1));
    assert_eq!(cell.attrs().hyperlink, None);
    let pen = t.state().pen();
    assert_eq!(pen.foreground, ColorAttribute::Default);
    assert_eq!(pen.hyperlink, None);
    assert_eq!(pen, CellAttributes::new());
}

#[test]
fn sgr_sets_each_attribute() {
    let mut t = term(24, 80, 0);
    t.advance_bytes(b"\x1b[1;4;5;3;7;8;9;32;44m");
    let pen = t.state().pen();
    assert_eq!(pen.intensity, Intensity::Bold);
    assert_eq!(pen.underline, Underline::Single);
    assert_eq!(pen.blink, Blink::Slow);
    assert!(pen.italic && pen.reverse && pen.invisible && pen.strikethrough);
    assert_eq!(pen.foreground, ColorAttribute::PaletteIndex(2));
    assert_eq!(pen.background, ColorAttribute::PaletteIndex(4));
    t.advance_bytes(b"\x1b[38;2;1;2;3m\x1b[48;5;200m");
    let pen = t.state().pen();
    assert_eq!(
        pen.foreground,
        ColorAttribute::TrueColorWithDefaultFallback(RgbColor { red: 1, green: 2, blue: 3 })
    );
    assert_eq!(pen.background, ColorAttribute::PaletteIndex(200));
}

#[test]
fn sgr_reset_keeps_hyperlink() {
    let mut t = term(24, 80, 0);
    t.advance_bytes(b"\x1b]8;id=a;http://example.com\x1b\\\x1b[1m\x1b[0mZ");
    let pen = t.state().pen();
    assert_eq!(pen.intensity, Intensity::Normal);
    assert!(pen.hyperlink.is_some());
    let cell_link = t.state().screen().line(0).cell(0).attrs().hyperlink;
    assert_eq!(cell_link, pen.hyperlink);
    t.advance_bytes(b"\x1b]8;;\x1b\\");
    assert_eq!(t.state().pen().hyperlink, None);
}

#[test]
fn streaming_boundary_in_escape_sequence() {
    let whole: &[u8] = b"ab\x1b[31;1mcd\x1b]2;title\x07\r\nxyz\x1b[2;5Hq";
    for cut in 0..=whole.len() {
        let mut one = term(6, 20, 10);
        one.advance_bytes(whole);
        let mut two = term(6, 20, 10);
        two.advance_bytes(&whole[..cut]);
        two.advance_bytes(&whole[cut..]);
        assert_eq!(cursor(&one), cursor(&two), "cut at {}", cut);
        for row in 0..6 {
            assert_eq!(row_text(&one, row), row_text(&two, row), "cut at {}", cut);
        }
        assert_eq!(one.state().get_title(), two.state().get_title());
        assert_eq!(one.state().pen(), two.state().pen());
    }
}

#[test]
fn cursor_position_report_round_trip() {
    let mut t = term(24, 80, 0);
    t.advance_bytes(b"\x1b[7;13H\x1b[6n");
    assert_eq!(cursor(&t), (12, 6));
    let requests = t.take_requests();
    assert_eq!(requests.len(), 1);
    let bytes = match &requests[0] {
        HostRequest::Write(bytes) => bytes.clone(),
        other => panic!("unexpected request {:?}", other),
    };
    assert_eq!(bytes, b"\x1b[7;13R".to_vec());
    let mut parser = Parser::new();
    let actions = parser.parse_as_vec(&bytes);
    assert_eq!(actions.len(), 1);
    match &actions[0] {
        Action::CSI(CSI::Cursor(Cursor::ActivePositionReport { line, col })) => {
            assert_eq!(line.as_one_based(), 7);
            assert_eq!(col.as_one_based(), 13);
        }
        other => panic!("unexpected action {:?}", other),
    }
    assert!(t.take_requests().is_empty());
}

#[test]
fn wrap_is_deferred_at_the_margin() {
    let mut t = term(3, 5, 10);
    t.advance_bytes(b"abcde");
    assert_eq!(cursor(&t), (4, 0));
    assert!(t.state().wrap_next());
    assert_eq!(t.state().screen().lines.len(), 3);
    assert_eq!(row_text(&t, 0), "abcde");
    assert_eq!(row_text(&t, 1), "");
    assert!(t.state().screen().line(0).cell(4).attrs().wrapped());
    t.advance_bytes(b"f");
    assert_eq!(cursor(&t), (1, 1));
    assert!(!t.state().wrap_next());
    assert_eq!(row_text(&t, 1), "f");
}

#[test]
fn resize_clamps_cursor_and_keeps_scrollback() {
    let mut t = term(6, 10, 100);
    t.advance_bytes(b"one\r\ntwo\r\nthree\r\nfour\r\nfive\r\nsix\r\nseven\r\neight");
    assert_eq!(t.state().screen().lines.len(), 8);
    t.advance_bytes(b"\x1b[6;10H");
    assert_eq!(cursor(&t), (9, 5));
    t.state_mut().resize(3, 4, 400, 300);
    let (x, y) = cursor(&t);
    assert!(y <= 2);
    assert!(x <= 3);
    assert_eq!((x, y), (3, 2));
    assert_eq!(t.state().physical_dimensions(), (3, 4));
    let screen = t.state().screen();
    assert_eq!(screen.lines.len(), 8);
    let texts: Vec<String> =
        screen.lines.iter().map(|l| l.as_str().trim_end().to_string()).collect();
    assert_eq!(texts, vec!["one", "two", "thre", "four", "five", "six", "seve", "eigh"]);
    assert_eq!(t.state().scroll_region(), 0..3);
}

#[test]
fn resize_grows_with_fresh_lines() {
    let mut t = term(2, 4, 1);
    t.advance_bytes(b"a\r\nb\r\nc");
    assert_eq!(t.state().screen().lines.len(), 3);
    t.state_mut().resize(4, 4, 0, 0);
    let screen = t.state().screen();
    assert_eq!(screen.lines.len(), 5);
    assert_eq!(screen.line(0).as_str().trim_end(), "a");
    assert_eq!(screen.line(4).as_str().trim_end(), "");
    t.state_mut().resize(1, 4, 0, 0);
    let screen = t.state().screen();
    assert_eq!(screen.lines.len(), 5);
    assert_eq!(screen.line(0).as_str().trim_end(), "a");
    assert_eq!(screen.line(1).as_str().trim_end(), "b");
    assert_eq!(screen.line(2).as_str().trim_end(), "c");
}

#[test]
fn resize_keeps_full_scrollback() {
    let mut t = term(4, 6, 2);
    t.advance_bytes(b"s0\r\ns1\r\nv0\r\nv1\r\nv2\r\nv3");
    assert_eq!(t.state().screen().lines.len(), 6);
    t.state_mut().resize(2, 6, 0, 0);
    let screen = t.state().screen();
    let texts: Vec<String> =
        screen.lines.iter().map(|l| l.as_str().trim_end().to_string()).collect();
    assert_eq!(texts, vec!["s0", "s1", "v0", "v1", "v2", "v3"]);
    assert_eq!(row_text(&t, 0), "v2");
    assert_eq!(cursor(&t), (2, 1));
    t.advance_bytes(b"\r\nnew");
    let screen = t.state().screen();
    let texts: Vec<String> =
        screen.lines.iter().map(|l| l.as_str().trim_end().to_string()).collect();
    assert_eq!(texts, vec!["v1", "v2", "v3", "new"]);
}

#[test]
fn streaming_boundary_in_insert_mode() {
    let whole: &[u8] = b"abc\r\x1b[4hXYZ\x1b[4l!";
    for cut in 0..=whole.len() {
        let mut one = term(3, 10, 0);
        one.advance_bytes(whole);
        let mut two = term(3, 10, 0);
        two.advance_bytes(&whole[..cut]);
        two.advance_bytes(&whole[cut..]);
        assert_eq!(row_text(&one, 0), "XYZ!bc");
        assert_eq!(row_text(&two, 0), "XYZ!bc", "cut at {}", cut);
        assert_eq!(cursor(&one), cursor(&two), "cut at {}", cut);
    }
}

#[test]
fn erase_uses_the_pen() {
    let mut t = term(3, 4, 0);
    t.advance_bytes(b"ab\r\ncd\x1b[3m\x1b[44m\x1b[2J");
    assert_eq!(cursor(&t), (2, 1));
    for row in 0..3 {
        let line = t.state().screen().line(row);
        assert_eq!(line.len(), 4);
        for col in 0..4 {
            let cell = line.cell(col);
            assert_eq!(cell.str(), " ");
            assert!(cell.attrs().italic);
            assert_eq!(cell.attrs().background, ColorAttribute::PaletteIndex(4));
        }
    }
    t.advance_bytes(b"\x1b[0m\x1b[1;1Hxy\x1b[41m\r\x1b[K");
    let line = t.state().screen().line(0);
    for col in 0..4 {
        assert_eq!(line.cell(col).str(), " ");
        assert!(!line.cell(col).attrs().italic);
        assert_eq!(line.cell(col).attrs().background, ColorAttribute::PaletteIndex(1));
    }
    t.advance_bytes(b"\x1b[0mxy\x1b[42m\x1b[1;2H\x1b[K");
    let line = t.state().screen().line(0);
    assert_eq!(line.cell(0).str(), "x");
    assert_eq!(line.cell(0).attrs().background, ColorAttribute::Default);
    assert_eq!(line.cell(1).attrs().background, ColorAttribute::PaletteIndex(2));
    assert_eq!(line.cell(3).attrs().background, ColorAttribute::PaletteIndex(2));
}

#[test]
fn print_clusters_with_given_widths() {
    let mut t = term(2, 8, 0);
    let clusters = vec![
        Cluster { text: vec!['a'], width: 1 },
        Cluster { text: vec!['W'], width: 2 },
        Cluster { text: vec!['b'], width: 0 },
    ];
    t.state_mut().print_clusters(&clusters);
    assert_eq!(cursor(&t), (4, 0));
    let line = t.state().screen().line(0);
    assert_eq!(line.cell(0).str(), "a");
    assert_eq!(line.cell(1).str(), "W");
    assert_eq!(line.cell(1).width(), 2);
    assert_eq!(line.cell(2).str(), " ");
    assert_eq!(line.cell(3).str(), "b");
    assert_eq!(line.cell(3).width(), 1);
    t.state_mut().print_clusters(&Vec::new());
    assert_eq!(cursor(&t), (4, 0));
}

#[test]
fn scrollback_is_bounded() {
    let mut t = term(2, 10, 3);
    for i in 0..10 {
        t.advance_bytes(format!("line{}\r\n", i).as_bytes());
    }
    let screen = t.state().screen();
    assert_eq!(screen.lines.len(), 5);
    assert_eq!(screen.line(0).as_str().trim_end(), "line6");
    assert_eq!(row_text(&t, 0), "line9");
    assert_eq!(cursor(&t), (0, 1));
}

#[test]
fn scroll_region_drops_rows_without_scrollback() {
    let mut t = term(5, 10, 10);
    t.advance_bytes(b"a\r\nb\r\nc\r\nd\r\ne");
    t.advance_bytes(b"\x1b[2;4r\x1b[4;1H\n");
    assert_eq!(t.state().scroll_region(), 1..4);
    assert_eq!(t.state().screen().lines.len(), 5);
    assert_eq!(row_text(&t, 0), "a");
    assert_eq!(row_text(&t, 1), "c");
    assert_eq!(row_text(&t, 2), "d");
    assert_eq!(row_text(&t, 3), "");
    assert_eq!(row_text(&t, 4), "e");
    t.advance_bytes(b"\x1b[2;1H\x1bM");
    assert_eq!(row_text(&t, 1), "");
    assert_eq!(row_text(&t, 2), "c");
    assert_eq!(row_text(&t, 3), "d");
}

#[test]
fn tabs_and_backspace() {
    let mut t = term(3, 20, 0);
    t.advance_bytes(b"a\tb");
    assert_eq!(cursor(&t), (9, 0));
    assert_eq!(t.state().screen().line(0).cell(8).str(), "b");
    t.advance_bytes(b"\x08\x08");
    assert_eq!(cursor(&t), (7, 0));
    t.advance_bytes(b"\r\x1b[4G\x1bH\r\t");
    assert_eq!(cursor(&t), (3, 0));
    t.advance_bytes(b"\t\t\t\t");
    assert_eq!(cursor(&t), (19, 0));
}

#[test]
fn cursor_moves_are_clamped() {
    let mut t = term(4, 6, 0);
    t.advance_bytes(b"\x1b[99;99H");
    assert_eq!(cursor(&t), (5, 3));
    t.advance_bytes(b"\x1b[99A\x1b[99D");
    assert_eq!(cursor(&t), (0, 0));
    t.advance_bytes(b"\x1b[2B\x1b[3C");
    assert_eq!(cursor(&t), (3, 2));
    t.advance_bytes(b"\x1b[1d\x1b[2G");
    assert_eq!(cursor(&t), (1, 0));
    t.advance_bytes(b"\x1b[2E");
    assert_eq!(cursor(&t), (0, 2));
    t.advance_bytes(b"\x1b[1F");
    assert_eq!(cursor(&t), (0, 1));
}

#[test]
fn erase_and_edit_operations() {
    let mut t = term(3, 8, 0);
    t.advance_bytes(b"abcdefgh\x1b[1;4H\x1b[K");
    assert_eq!(row_text(&t, 0), "abc");
    t.advance_bytes(b"\x1b[1;1Habcdefgh\x1b[1;3H\x1b[2P");
    assert_eq!(row_text(&t, 0), "abefgh");
    t.advance_bytes(b"\x1b[2@");
    assert_eq!(row_text(&t, 0), "ab  efgh");
    t.advance_bytes(b"\x1b[1;5H\x1b[2X");
    assert_eq!(row_text(&t, 0), "ab    gh");
    t.advance_bytes(b"\x1b[1;1H\x1b[1K\x1b[2;1Hxy\x1b[3b");
    assert_eq!(row_text(&t, 1), "xyyyyy");
    assert_eq!(cursor(&t), (5, 1));
    t.advance_bytes(b"\x1b[1;1H\x1b[L");
    assert_eq!(row_text(&t, 0), "");
    assert_eq!(row_text(&t, 1), "ab    gh");
    assert_eq!(row_text(&t, 2), "xyyyyy");
    t.advance_bytes(b"\x1b[M");
    assert_eq!(row_text(&t, 0), "ab    gh");
    assert_eq!(row_text(&t, 2), "");
}

#[test]
fn insert_mode_shifts_cells() {
    let mut t = term(2, 8, 0);
    t.advance_bytes(b"abc\r\x1b[4hXY");
    assert_eq!(row_text(&t, 0), "XYabc");
    assert_eq!(cursor(&t), (2, 0));
    t.advance_bytes(b"Z");
    assert_eq!(row_text(&t, 0), "XYZabc");
    assert_eq!(cursor(&t), (3, 0));
    t.advance_bytes(b"\x1b[1;7H12345");
    assert_eq!(row_text(&t, 0), "XYZabc15");
    assert_eq!(cursor(&t), (7, 0));
    assert!(t.state().wrap_next());
    assert!(t.state().modes().insert);
    t.advance_bytes(b"\x1b[4l");
    assert!(!t.state().modes().insert);
}

#[test]
fn alternate_screen_saves_and_restores() {
    let mut t = term(3, 10, 5);
    t.advance_bytes(b"main\x1b[?1049h");
    assert!(t.state().is_alt_screen_active());
    assert_eq!(cursor(&t), (0, 0));
    assert_eq!(row_text(&t, 0), "");
    t.advance_bytes(b"alt");
    assert_eq!(row_text(&t, 0), "alt");
    t.advance_bytes(b"\x1b[?1049l");
    assert!(!t.state().is_alt_screen_active());
    assert_eq!(row_text(&t, 0), "main");
    assert_eq!(cursor(&t), (4, 0));
    t.advance_bytes(b"\x1b[?47h");
    assert!(t.state().is_alt_screen_active());
    assert_eq!(row_text(&t, 0), "alt");
    t.advance_bytes(b"\x1b[?47l");
    assert!(!t.state().is_alt_screen_active());
}

#[test]
fn modes_are_switched() {
    let mut t = term(3, 10, 0);
    t.advance_bytes(b"\x1b[?2004h\x1b[?1h\x1b[?25l\x1b[?1002h\x1b[?1006h\x1b=\x1b(0");
    let m = t.state().modes();
    assert!(m.bracketed_paste && m.application_cursor_keys && !m.cursor_visible);
    assert!(m.button_event_mouse && m.sgr_mouse && m.application_keypad);
    assert!(m.dec_line_drawing_mode);
    t.advance_bytes(b"q");
    assert_eq!(t.state().screen().line(0).cell(0).str(), "\u{2500}");
    t.advance_bytes(b"\x1b(B\x1b>\x1b[?2004l\x1b[?1l\x1b[?25h\x1b[?1002l\x1b[?1006l\x1b[?9999h");
    let m = t.state().modes();
    assert!(!m.bracketed_paste && !m.application_cursor_keys && m.cursor_visible);
    assert!(!m.button_event_mouse && !m.sgr_mouse && !m.application_keypad);
    assert!(!m.dec_line_drawing_mode);
}

#[test]
fn wide_and_combined_graphemes() {
    let mut t = term(2, 10, 0);
    t.advance_bytes("\u{4e16}a".as_bytes());
    assert_eq!(cursor(&t), (3, 0));
    let screen = t.state().screen();
    assert_eq!(screen.line(0).cell(0).str(), "\u{4e16}");
    assert_eq!(screen.line(0).cell(0).width(), 2);
    assert_eq!(screen.line(0).cell(2).str(), "a");
    let mut t = term(2, 10, 0);
    t.advance_bytes("e\u{301}x".as_bytes());
    assert_eq!(cursor(&t), (2, 0));
    let screen = t.state().screen();
    assert_eq!(screen.line(0).cell(0).str(), "e\u{301}");
    assert_eq!(screen.line(0).cell(1).str(), "x");
}

#[test]
fn title_and_clipboard_requests() {
    let mut t = term(2, 10, 0);
    assert_eq!(t.state().get_title(), "miro");
    t.advance_bytes("\x1b]0;caf\u{e9}\x07".as_bytes());
    assert_eq!(t.state().get_title(), "caf\u{e9}");
    t.advance_bytes(b"\x1b]52;c;aGVsbG8=\x07\x1b]52;c\x07");
    let requests = t.take_requests();
    assert_eq!(requests.len(), 3);
    match &requests[0] {
        HostRequest::SetTitle(title) => assert_eq!(title.iter().collect::<String>(), "caf\u{e9}"),
        other => panic!("unexpected request {:?}", other),
    }
    match &requests[1] {
        HostRequest::SetClipboard(Some(text)) => {
            assert_eq!(text.iter().collect::<String>(), "hello")
        }
        other => panic!("unexpected request {:?}", other),
    }
    assert!(matches!(&requests[2], HostRequest::SetClipboard(None)));
}

#[test]
fn device_and_window_reports() {
    let mut t = term(24, 80, 0);
    t.advance_bytes(b"\x1b[c\x1b[>c\x1b[5n\x1b[18t");
    let requests = t.take_requests();
    let written: Vec<Vec<u8>> = requests
        .iter()
        .map(|r| match r {
            HostRequest::Write(b) => b.clone(),
            other => panic!("unexpected request {:?}", other),
        })
        .collect();
    assert_eq!(
        written,
        vec![
            b"\x1b[?6c".to_vec(),
            b"\x1b[>0;0;0c".to_vec(),
            b"\x1b[0n".to_vec(),
            b"\x1b[8;24;80t".to_vec(),
        ]
    );
}

#[test]
fn checksum_of_rectangle_is_clamped() {
    let mut t = term(3, 4, 0);
    t.advance_bytes(b"AB\r\nCD\x1b[7;1;1;1;2;2*y");
    let requests = t.take_requests();
    let expected: u16 = 0x41 + 0x42 + 0x43 + 0x44;
    match &requests[0] {
        HostRequest::Write(b) => {
            assert_eq!(b, &format!("\x1bP7!~{:04x}\x1b\\", expected).into_bytes())
        }
        other => panic!("unexpected request {:?}", other),
    }
    t.advance_bytes(b"\x1b[9;1;1;1;900;900*y");
    let requests = t.take_requests();
    let all: u16 = expected + 8 * 0x20;
    match &requests[0] {
        HostRequest::Write(b) => assert_eq!(b, &format!("\x1bP9!~{:04x}\x1b\\", all).into_bytes()),
        other => panic!("unexpected request {:?}", other),
    }
}

#[test]
fn palette_is_set_and_queried() {
    let mut t = term(2, 10, 0);
    assert_eq!(t.state().palette().colors.len(), 256);
    assert_eq!(t.state().palette().colors[16], RgbColor { red: 0, green: 0, blue: 0 });
    assert_eq!(t.state().palette().colors[231], RgbColor { red: 255, green: 255, blue: 255 });
    assert_eq!(t.state().palette().colors[232], RgbColor { red: 8, green: 8, blue: 8 });
    t.advance_bytes(b"\x1b]4;1;#102030;2;?\x07\x1b]4;1;?\x07\x1b]11;rgb:aa/bb/cc\x07\x1b]11;?\x07");
    assert_eq!(t.state().palette().colors[1], RgbColor { red: 0x10, green: 0x20, blue: 0x30 });
    assert_eq!(t.state().palette().background, RgbColor { red: 0xaa, green: 0xbb, blue: 0xcc });
    let requests = t.take_requests();
    let written: Vec<Vec<u8>> = requests
        .iter()
        .map(|r| match r {
            HostRequest::Write(b) => b.clone(),
            other => panic!("unexpected request {:?}", other),
        })
        .collect();
    assert_eq!(
        written,
        vec![
            b"\x1b]4;2;rgb:5555/cccc/5555\x1b\\".to_vec(),
            b"\x1b]4;1;rgb:1010/2020/3030\x1b\\".to_vec(),
            b"\x1b]11;rgb:aaaa/bbbb/cccc\x1b\\".to_vec(),
        ]
    );
}

#[test]
fn dirty_lines_are_reported_and_cleaned() {
    let mut t = term(3, 5, 0);
    assert!(t.state().has_dirty_lines());
    t.state_mut().clean_dirty_lines();
    assert!(!t.state().has_dirty_lines());
    assert!(t.state().get_dirty_lines().is_empty());
    t.advance_bytes(b"\x1b[2;1Hx");
    let dirty = t.state().get_dirty_lines();
    let rows: Vec<usize> = dirty.iter().map(|d| d.0).collect();
    assert_eq!(rows, vec![0, 1]);
    assert_eq!(dirty[1].1.as_str().trim_end(), "x");
    assert_eq!(dirty[1].2, 0..0);
    t.state_mut().make_all_lines_dirty();
    assert_eq!(t.state().get_dirty_lines().len(), 3);
    assert_eq!(t.state().cursor_pos(), CursorPosition { x: 1, y: 1 });
}

#[test]
fn unknown_sequences_change_nothing() {
    let mut t = term(3, 5, 0);
    t.advance_bytes(b"ab");
    t.state_mut().clean_dirty_lines();
    t.advance_bytes(b"\x1b[99z\x1b[?7777h\x1b]777;x\x07\x1bZ\x1bPq#data\x1b\\\x07");
    assert_eq!(cursor(&t), (2, 0));
    assert_eq!(row_text(&t, 0), "ab");
    assert!(!t.state().has_dirty_lines());
    assert!(t.take_requests().is_empty());
}

#[test]
fn erase_always_dirties() {
    let mut t = term(3, 5, 0);
    t.advance_bytes(b"ab\r");
    t.state_mut().clean_dirty_lines();
    t.advance_bytes(b"\x1b[1K");
    let dirty = t.state().get_dirty_lines();
    let rows: Vec<usize> = dirty.iter().map(|d| d.0).collect();
    assert_eq!(rows, vec![0]);
    assert_eq!(row_text(&t, 0), "ab");
}

#[test]
fn overlong_parameter_list_does_not_wedge() {
    let mut t = term(3, 10, 0);
    let mut bytes = b"\x1b[".to_vec();
    for _ in 0..200 {
        bytes.extend_from_slice(b"1;");
    }
    bytes.extend_from_slice(b"mok\x1b[2;3Hx");
    t.advance_bytes(&bytes);
    assert_eq!(row_text(&t, 0), "ok");
    assert_eq!(cursor(&t), (3, 1));
    assert_eq!(t.state().screen().line(1).cell(2).str(), "x");
}

#[test]
fn colour_cube_and_grey_ramp() {
    let t = term(2, 2, 0);
    let colors = &t.state().palette().colors;
    assert_eq!(colors[110], RgbColor { red: 0x87, green: 0xaf, blue: 0xd7 });
    assert_eq!(colors[255], RgbColor { red: 238, green: 238, blue: 238 });
    assert_eq!(colors[7], RgbColor { red: 0xcc, green: 0xcc, blue: 0xcc });
    assert_eq!(t.state().palette().foreground, colors[7]);
}
