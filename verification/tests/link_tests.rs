use miro_term::hyperlink::find_links;
use miro_term::hyperlink::Rule;
use miro_term::input::KeyModifiers;
use miro_term::input::MouseButton;
use miro_term::input::MouseEvent;
use miro_term::input::MouseEventKind;
use miro_term::terminal::Terminal;

fn chars(s: &str) -> Vec<char> {
    s.chars().collect()
}

fn text(c: &[char]) -> String {
    c.iter().collect()
}

fn move_to(t: &mut Terminal, x: usize, y: i64, now: u64) {
    let event = MouseEvent {
        kind: MouseEventKind::Move,
        x,
        y,
        button: MouseButton::NoButton,
        modifiers: KeyModifiers::new(),
    };
    t.state_mut().mouse_event(event, now).unwrap();
}

fn url_rules() -> Vec<Rule> {
    vec![Rule::new(r"\b\w+://\S+", "$0"), Rule::new(r"\bbug(\d+)\b", "http://bugs.example/$1")]
}

#[test]
fn rules_find_links_in_text() {
    let found = find_links(&url_rules(), &chars("see http://a.b/c and bug42, or ftp://x"));
    let got: Vec<(usize, usize, String)> =
        found.iter().map(|f| (f.start, f.end, text(&f.uri))).collect();
    assert_eq!(
        got,
        vec![
            (4, 16, "http://a.b/c".to_string()),
            (31, 38, "ftp://x".to_string()),
            (21, 26, "http://bugs.example/42".to_string()),
        ]
    );
}

#[test]
fn rule_format_names_groups() {
    let rule = Rule::new(r"(\w+)@(\w+)\.com", "mailto:$2/$1?$0&$9$");
    let found = rule.find(&chars("to joe@example.com now"));
    assert_eq!(found.len(), 1);
    assert_eq!(text(&found[0].uri), "mailto:example/joe?joe@example.com&$9$");
    assert_eq!((found[0].start, found[0].end), (3, 18));
    let either = Rule::new(r"(a)|(b)", "$1-$2");
    let found = either.find(&chars("b"));
    assert_eq!(found.len(), 1);
    assert_eq!(text(&found[0].uri), "-b");
    let broken = Rule::new(r"(unclosed", "$0");
    assert!(broken.find(&chars("(unclosed")).is_empty());
}

#[test]
fn byte_offsets_follow_wide_text() {
    let found = find_links(&url_rules(), &chars("\u{4e16}\u{e9} bug7"));
    assert_eq!(found.len(), 1);
    assert_eq!((found[0].start, found[0].end), (6, 10));
}

#[test]
fn mouse_over_plain_text_finds_link() {
    let mut t = Terminal::new(3, 40, 0, 0, 10, url_rules());
    t.advance_bytes("\u{4e16} see http://example.com/x now".as_bytes());
    assert!(t.state().current_highlight().is_none());
    move_to(&mut t, 9, 0, 0);
    let link = t.state().current_highlight().expect("link under the mouse");
    assert_eq!(text(link.uri()), "http://example.com/x");
    assert!(link.is_implicit());
    let screen = t.state().screen();
    let line = screen.line(0);
    assert!(line.is_scanned());
    assert!(line.has_hyperlink());
    assert!(line.cell(6).attrs().hyperlink.is_none());
    let first = line.cell(7).attrs().hyperlink.expect("first cell of the link");
    assert!(first.implicit);
    assert_eq!(line.cell(26).attrs().hyperlink, Some(first));
    assert!(line.cell(27).attrs().hyperlink.is_none());
    move_to(&mut t, 3, 0, 1);
    assert!(t.state().current_highlight().is_none());
}

#[test]
fn change_to_line_drops_found_links() {
    let mut t = Terminal::new(3, 40, 0, 0, 10, url_rules());
    t.advance_bytes(b"x bug12 y");
    move_to(&mut t, 3, 0, 0);
    assert_eq!(text(t.state().current_highlight().unwrap().uri()), "http://bugs.example/12");
    t.advance_bytes(b"\x1b[1;5Hz");
    let screen = t.state().screen();
    assert!(!screen.line(0).is_scanned());
    assert!(screen.line(0).cell(2).attrs().hyperlink.is_none());
    move_to(&mut t, 2, 0, 1);
    assert!(t.state().current_highlight().is_none());
    t.advance_bytes(b"\x1b[1;5Hg");
    move_to(&mut t, 3, 0, 2);
    assert_eq!(text(t.state().current_highlight().unwrap().uri()), "http://bugs.example/12");
}

#[test]
fn explicit_link_is_kept_over_found_link() {
    let mut t = Terminal::new(3, 40, 0, 0, 10, url_rules());
    t.advance_bytes(b"\x1b]8;;http://set\x1b\\bug1\x1b]8;;\x1b\\ bug2");
    move_to(&mut t, 1, 0, 0);
    let link = t.state().current_highlight().unwrap();
    assert_eq!(text(link.uri()), "http://set");
    assert!(!link.is_implicit());
    move_to(&mut t, 6, 0, 1);
    let link = t.state().current_highlight().unwrap();
    assert_eq!(text(link.uri()), "http://bugs.example/2");
    assert!(link.is_implicit());
}

#[test]
fn longest_match_wins() {
    let rules = vec![Rule::new(r"bug\d", "short:$0"), Rule::new(r"bug\d+", "long:$0")];
    let mut t = Terminal::new(3, 40, 0, 0, 10, rules);
    t.advance_bytes(b"bug123");
    move_to(&mut t, 1, 0, 0);
    assert_eq!(text(t.state().current_highlight().unwrap().uri()), "long:bug123");
}
