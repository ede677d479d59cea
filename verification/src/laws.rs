//! Laws that hold of the terminal as a whole.

use crate::cell::columns;
use crate::cell::CellAttributes;
use crate::cell::CellView;
use crate::engine::shown_grapheme;
use crate::model::CursorPosition;
use crate::engine::EngineView;
use crate::escape::csi::csi_decoded;
use crate::escape::csi::CsiView;
use crate::escape::csi::Cursor;
use crate::escape::csi::EraseInDisplay;
use crate::escape::csi::EraseInLine;
use crate::escape::ActionView;
use crate::escape::osc::digits_value;
use crate::escape::osc::pow10;
use crate::escape::OneBased;
use crate::fmt::decimal;
use crate::model::lemma_with_active_wf;
use crate::line::is_word_text;
use crate::line::sized;
use crate::line::word_lower;
use crate::line::word_upper;
use crate::line::DoubleClickRange;
use crate::line::LineView;
use crate::model::Position;
use crate::model::StateView;
use crate::screen::ScreenView;
use crate::model::clamp;
use crate::screen::MAX_DIMENSION;
use crate::screen::MAX_LINES;
use crate::parser::byte_actions;
use crate::parser::bytes_actions;
use crate::parser::first_action_at;
use crate::reply::position_report;
use crate::screen::lemma_with_cell_shape;
use crate::terminal::lemma_performed_all_concat;
use crate::terminal::TerminalView;
use crate::text::cell_width;
use crate::text::graphemes_of;
use vstd::prelude::*;

verus! {

/// The actions that the first bytes of a stream complete do not depend on the bytes that
/// follow.
pub proof fn lemma_bytes_actions_prefix(history: Seq<u8>, bytes: Seq<u8>, n: int)
    requires
        0 <= n <= bytes.len(),
    ensures
        bytes_actions(history, bytes, n) == bytes_actions(history, bytes.subrange(0, n), n),
    decreases n,
{
    if n > 0 {
        lemma_bytes_actions_prefix(history, bytes, n - 1);
        lemma_bytes_actions_prefix(history, bytes.subrange(0, n), n - 1);
        assert(bytes.subrange(0, n).subrange(0, n - 1) =~= bytes.subrange(0, n - 1));
    }
}

/// The actions that a stream completes are those its first part completes, followed by
/// those its second part completes for a parser that has consumed the first.
pub proof fn lemma_bytes_actions_concat(history: Seq<u8>, a: Seq<u8>, b: Seq<u8>)
    ensures
        bytes_actions(history, a + b, (a + b).len() as int) == bytes_actions(
            history,
            a,
            a.len() as int,
        ) + bytes_actions(history + a, b, b.len() as int),
    decreases b.len(),
{
    if b.len() == 0 {
        assert(a + b =~= a);
        assert(bytes_actions(history, a, a.len() as int) + Seq::<ActionView>::empty()
            =~= bytes_actions(history, a, a.len() as int));
    } else {
        let front = b.drop_last();
        let n = (a + b).len() - 1;
        lemma_bytes_actions_concat(history, a, front);
        assert((a + b).subrange(0, n) =~= a + front);
        lemma_bytes_actions_prefix(history, a + b, n);
        lemma_bytes_actions_prefix(history + a, b, b.len() - 1);
        assert(b.subrange(0, b.len() - 1) =~= front);
        assert(history + (a + front) =~= (history + a) + front);
        assert((a + b)[n] == b[b.len() - 1]);
        let x = bytes_actions(history, a, a.len() as int);
        let y = bytes_actions(history + a, front, front.len() as int);
        let z = byte_actions((history + a) + front, b[b.len() - 1]);
        assert((x + y) + z =~= x + (y + z));
    }
}

/// The three ways of parsing agree on where actions are recognised: the byte at which the
/// first action is found is the first byte at which the streaming mode completes an action,
/// no action is completed before it, and the actions found there are those the streaming
/// mode completes there; where no first action is found, the streaming mode completes none.
pub proof fn lemma_first_action_agrees(history: Seq<u8>, bytes: Seq<u8>, from: int)
    requires
        0 <= from <= bytes.len(),
        bytes_actions(history, bytes, from) == Seq::<ActionView>::empty(),
    ensures
        first_action_at(history, bytes, from) matches Some(at) ==> {
            &&& from <= at < bytes.len()
            &&& bytes_actions(history, bytes, at) == Seq::<ActionView>::empty()
            &&& bytes_actions(history, bytes, at + 1) == byte_actions(
                history + bytes.subrange(0, at),
                bytes[at],
            )
            &&& byte_actions(history + bytes.subrange(0, at), bytes[at]).len() > 0
        },
        first_action_at(history, bytes, from) is None ==> bytes_actions(
            history,
            bytes,
            bytes.len() as int,
        ) == Seq::<ActionView>::empty(),
    decreases bytes.len() - from,
{
    if from < bytes.len() {
        let here = byte_actions(history + bytes.subrange(0, from), bytes[from]);
        assert(bytes_actions(history, bytes, from + 1) == bytes_actions(history, bytes, from) + here);
        assert(Seq::<ActionView>::empty() + here =~= here);
        if here.len() == 0 {
            assert(here =~= Seq::<ActionView>::empty());
            lemma_first_action_agrees(history, bytes, from + 1);
        }
    }
}

/// Printing the first clusters of a list does not depend on those that follow.
pub proof fn lemma_clusters_printed_prefix(
    s: StateView,
    a: Seq<Seq<char>>,
    b: Seq<Seq<char>>,
    n: int,
)
    requires
        0 <= n <= a.len(),
        n <= b.len(),
        a.subrange(0, n) == b.subrange(0, n),
    ensures
        s.clusters_printed(a, n) == s.clusters_printed(b, n),
    decreases n,
{
    if n > 0 {
        assert(a.subrange(0, n - 1) =~= a.subrange(0, n).subrange(0, n - 1));
        assert(b.subrange(0, n - 1) =~= b.subrange(0, n).subrange(0, n - 1));
        lemma_clusters_printed_prefix(s, a, b, n - 1);
        assert(a[n - 1] == a.subrange(0, n)[n - 1]);
        assert(b[n - 1] == b.subrange(0, n)[n - 1]);
    }
}

/// Printing a list of clusters, then another, is printing the two lists joined.
pub proof fn lemma_clusters_printed_concat(s: StateView, a: Seq<Seq<char>>, b: Seq<Seq<char>>)
    ensures
        s.clusters_printed(a + b, (a + b).len() as int) == s.clusters_printed(
            a,
            a.len() as int,
        ).clusters_printed(b, b.len() as int),
    decreases b.len(),
{
    let first = s.clusters_printed(a, a.len() as int);
    if b.len() == 0 {
        assert(a + b =~= a);
    } else {
        let front = b.drop_last();
        let n = (a + b).len() - 1;
        lemma_clusters_printed_concat(s, a, front);
        assert((a + b).subrange(0, n) =~= (a + front).subrange(0, n));
        lemma_clusters_printed_prefix(s, a + b, a + front, n);
        assert(b.subrange(0, b.len() - 1) =~= front.subrange(0, b.len() - 1));
        lemma_clusters_printed_prefix(first, b, front, b.len() - 1);
        assert((a + b)[n] == b[b.len() - 1]);
    }
}

/// Printing a text, then another, is printing the two texts joined, provided the clusters
/// of the joined text are those of the first followed by those of the second.
pub proof fn lemma_text_printed_split(s: StateView, p: Seq<char>, q: Seq<char>)
    requires
        graphemes_of(p + q) == graphemes_of(p) + graphemes_of(q),
    ensures
        s.text_printed(p + q) == s.text_printed(p).text_printed(q),
{
    lemma_clusters_printed_concat(s, graphemes_of(p), graphemes_of(q));
}

/// The text that a list of actions prints before its first action that is neither a
/// character to print nor a step of a device control string.
pub open spec fn leading_text(actions: Seq<ActionView>) -> Seq<char>
    decreases actions.len(),
{
    if actions.len() == 0 {
        Seq::empty()
    } else {
        match actions[0] {
            ActionView::Print(c) => seq![c] + leading_text(actions.skip(1)),
            ActionView::DeviceControl(_) => leading_text(actions.skip(1)),
            _ => Seq::empty(),
        }
    }
}

/// Performing a list of actions is performing the first, then the rest.
pub proof fn lemma_performed_all_front(e: EngineView, actions: Seq<ActionView>)
    requires
        actions.len() > 0,
    ensures
        e.performed_all(actions, actions.len() as int) == e.performed(actions[0]).performed_all(
            actions.skip(1),
            actions.len() - 1,
        ),
{
    let head = seq![actions[0]];
    assert(head + actions.skip(1) =~= actions);
    lemma_performed_all_concat(e, head, actions.skip(1));
    assert(e.performed_all(head, 1) == e.performed_all(head, 0).performed(head[0]));
}

/// The text that waits when a stream is cut, as the second piece finds it: nothing waits
/// where the text is empty.
pub open spec fn waiting(text: Seq<char>) -> Option<Seq<char>> {
    if text.len() == 0 {
        None
    } else {
        Some(text)
    }
}

/// Whether a run of text that is cut into `p` and `q` has no cluster split by the cut:
/// nothing follows the cut, or the clusters of the run are those of `p` followed by those
/// of `q`.
pub open spec fn splits_cleanly(p: Seq<char>, q: Seq<char>) -> bool {
    q.len() == 0 || graphemes_of(p + q) == graphemes_of(p) + graphemes_of(q)
}

/// An engine that printed the text `p` early catches up with one that kept it waiting.
pub proof fn lemma_early_flush(s: StateView, p: Seq<char>, u: Seq<char>, actions: Seq<ActionView>)
    requires
        splits_cleanly(p, u + leading_text(actions)),
    ensures
        (EngineView { state: s, print: Some(p + u) }).performed_all(
            actions,
            actions.len() as int,
        ).flushed() == (EngineView { state: s.text_printed(p), print: waiting(u) }).performed_all(
            actions,
            actions.len() as int,
        ).flushed(),
    decreases actions.len(),
{
    let late = EngineView { state: s, print: Some(p + u) };
    let early = EngineView { state: s.text_printed(p), print: waiting(u) };
    if actions.len() == 0 {
        assert(u + leading_text(actions) =~= u);
        if u.len() == 0 {
            assert(p + u =~= p);
        } else {
            lemma_text_printed_split(s, p, u);
        }
    } else {
        lemma_performed_all_front(late, actions);
        lemma_performed_all_front(early, actions);
        reveal(EngineView::performed);
        let rest = actions.skip(1);
        match actions[0] {
            ActionView::Print(c) => {
                let grown = u.push(c);
                assert((p + u).push(c) =~= p + grown);
                assert(u + leading_text(actions) =~= grown + leading_text(rest));
                if u.len() == 0 {
                    assert(seq![c] =~= grown);
                }
                lemma_early_flush(s, p, grown, rest);
            },
            ActionView::DeviceControl(_) => {
                lemma_early_flush(s, p, u, rest);
            },
            _ => {
                assert(u + leading_text(actions) =~= u);
                if u.len() == 0 {
                    assert(p + u =~= p);
                } else {
                    lemma_text_printed_split(s, p, u);
                }
                assert(late.flushed() == early.flushed());
            },
        }
    }
}

/// Streaming boundary invariance: feeding a terminal two pieces of a stream, one after the
/// other, leaves it as feeding the whole stream at once does: the state, the requests to
/// the host and the parser are the same. Where the stream is cut within a run of text, this
/// holds provided the cut does not split a grapheme cluster of the run.
pub proof fn lemma_streaming_boundary(t: TerminalView, a: Seq<u8>, b: Seq<u8>)
    requires
        t.fed(a).print matches Some(p) ==> splits_cleanly(
            p,
            leading_text(bytes_actions(t.history + a, b, b.len() as int)),
        ),
    ensures
        t.advanced(a).advanced(b) == t.advanced(a + b),
{
    let first = bytes_actions(t.history, a, a.len() as int);
    let second = bytes_actions(t.history + a, b, b.len() as int);
    lemma_bytes_actions_concat(t.history, a, b);
    lemma_performed_all_concat(t.engine(), first, second);
    assert((t.history + a) + b =~= t.history + (a + b));
    let cut = t.fed(a);
    match cut.print {
        Some(p) => {
            assert(p + Seq::<char>::empty() =~= p);
            assert(Seq::<char>::empty() + leading_text(second) =~= leading_text(second));
            lemma_early_flush(cut.state, p, Seq::empty(), second);
            assert(cut == (EngineView { state: cut.state, print: Some(p + Seq::<char>::empty()) }));
            assert(t.advanced(a).engine() == (EngineView {
                state: cut.state.text_printed(p),
                print: waiting(Seq::empty()),
            }));
        },
        None => {
            assert(cut.flushed() == cut);
            assert(t.advanced(a).engine() == cut);
        },
    }
}

/// The digits of a number do not depend on what follows them in a text.
pub proof fn lemma_digits_value_prefix(s: Seq<u8>, t: Seq<u8>, n: int)
    requires
        0 <= n <= s.len(),
        n <= t.len(),
        s.subrange(0, n) == t.subrange(0, n),
    ensures
        digits_value(s, n) == digits_value(t, n),
    decreases n,
{
    if n > 0 {
        assert(s.subrange(0, n - 1) =~= s.subrange(0, n).subrange(0, n - 1));
        assert(t.subrange(0, n - 1) =~= t.subrange(0, n).subrange(0, n - 1));
        lemma_digits_value_prefix(s, t, n - 1);
        assert(s[n - 1] == s.subrange(0, n)[n - 1]);
        assert(t[n - 1] == t.subrange(0, n)[n - 1]);
    }
}

/// A number written in decimal reads back as itself, and has no more digits than its size
/// calls for.
pub proof fn lemma_decimal_reads_back(v: nat, k: int)
    requires
        1 <= k,
        v < pow10(k),
    ensures
        1 <= decimal(v).len() <= k,
        digits_value(decimal(v), decimal(v).len() as int) == Some(v as int),
    decreases v,
{
    if v < 10 {
        assert(digits_value(decimal(v), 0) == Some(0int));
    } else {
        assert(k >= 2) by {
            if k == 1 {
                assert(pow10(1) == 10) by {
                    reveal_with_fuel(pow10, 3);
                }
            }
        }
        assert(v / 10 < pow10(k - 1));
        lemma_decimal_reads_back(v / 10, k - 1);
        let front = decimal(v / 10);
        let s = decimal(v);
        assert(s == front.push((0x30 + v % 10) as u8));
        assert(s.subrange(0, front.len() as int) =~= front.subrange(0, front.len() as int));
        lemma_digits_value_prefix(s, front, front.len() as int);
    }
}

/// The cursor position report round trip: the answer to a request for the cursor's position
/// is the report of the row and the column of the cursor, both counted from one; the row
/// and the column stand in the report in decimal and read back as they are, and the
/// parameters of the report decode to the same row and column.
pub proof fn lemma_position_report_round_trip(s: StateView)
    requires
        s.wf(),
    ensures
        s.cursor_applied(Cursor::RequestActivePositionReport) == s.with_reply(
            position_report((s.cursor.y + 1) as u32, (s.cursor.x + 1) as u32),
        ),
        position_report((s.cursor.y + 1) as u32, (s.cursor.x + 1) as u32) == seq![0x1bu8, 0x5b]
            + decimal((s.cursor.y + 1) as nat) + seq![0x3bu8] + decimal((s.cursor.x + 1) as nat)
            + seq![0x52u8],
        digits_value(
            decimal((s.cursor.y + 1) as nat),
            decimal((s.cursor.y + 1) as nat).len() as int,
        ) == Some(s.cursor.y + 1),
        digits_value(
            decimal((s.cursor.x + 1) as nat),
            decimal((s.cursor.x + 1) as nat).len() as int,
        ) == Some(s.cursor.x + 1),
        csi_decoded(
            seq![(s.cursor.y + 1) as i64, (s.cursor.x + 1) as i64],
            Seq::empty(),
            false,
            0x52,
        ) == seq![
            CsiView::Cursor(
                Cursor::ActivePositionReport {
                    line: OneBased { value: (s.cursor.y + 1) as u32 },
                    col: OneBased { value: (s.cursor.x + 1) as u32 },
                },
            ),
        ],
{
    assert(pow10(10) == 10_000_000_000) by {
        reveal_with_fuel(pow10, 12);
    }
    lemma_decimal_reads_back((s.cursor.y + 1) as nat, 10);
    lemma_decimal_reads_back((s.cursor.x + 1) as nat, 10);
}

/// The wrap is deferred: a cluster that exactly fills the last column of a row is written
/// without a new row; the cursor stays in its row and column and the wrap waits, and it is
/// carried out only when the next cluster is printed.
pub proof fn lemma_wrap_is_deferred(s: StateView, g: Seq<char>)
    requires
        s.wf(),
        !s.modes.insert,
        !s.wrap_next,
        s.cursor.x + cell_width(shown_grapheme(g, s.modes.dec_line_drawing_mode)) == s.cols(),
    ensures
        s.cluster_printed(g).active().lines.len() == s.active().lines.len(),
        s.cluster_printed(g).cursor == s.cursor,
        s.cluster_printed(g).wrap_next,
        s.cluster_printed(g).wrapped_if_due() == s.cluster_printed(g).new_line(true),
{
    reveal(StateView::cluster_written);
    reveal(StateView::advanced);
    reveal(StateView::cleared_if_intersects);
    let shown = shown_grapheme(g, s.modes.dec_line_drawing_mode);
    let width = cell_width(shown);
    let x = s.cursor.x as int;
    let y = s.cursor.y as int;
    let a = s.active().with_cell(x, y, s.cluster_cell(shown, width));
    lemma_with_cell_shape(s.active(), x, y, s.cluster_cell(shown, width));
    lemma_with_active_wf(s, a);
}

/// Printing in insert mode: a cluster that does not reach the right edge is written at the
/// cursor after the cells from there on have moved right by its width, and the cursor
/// moves on by the width.
pub proof fn lemma_insert_advances_cursor(s: StateView, g: Seq<char>, width: usize)
    requires
        s.wf(),
        s.modes.insert,
        s.cursor.x + columns(width) < s.cols(),
    ensures
        s.cluster_printed_as(g, width).cursor == (CursorPosition {
            x: (s.cursor.x + columns(width)) as usize,
            y: s.cursor.y,
        }),
        !s.cluster_printed_as(g, width).wrap_next,
        s.cluster_printed_as(g, width).active() == s.active().with_inserted_cells_at(
            s.cursor.x as int,
            s.cursor.y as int,
            columns(width) as int,
        ).with_cell(
            s.cursor.x as int,
            s.cursor.y as int,
            CellView::cluster(shown_grapheme(g, s.modes.dec_line_drawing_mode), width, s.pen),
        ),
{
    reveal(StateView::cluster_written);
    reveal(StateView::advanced);
    reveal(StateView::cleared_if_intersects);
    let shown = shown_grapheme(g, s.modes.dec_line_drawing_mode);
    let x = s.cursor.x as int;
    let y = s.cursor.y as int;
    let room = s.active().with_inserted_cells_at(x, y, columns(width) as int);
    lemma_inserted_cells_at_shape(s.active(), x, y, columns(width) as int);
    let a = room.with_cell(x, y, s.cluster_cell(shown, width));
    lemma_with_cell_shape(room, x, y, s.cluster_cell(shown, width));
    lemma_with_active_wf(s, a);
}

/// Inserting blanks at a cell keeps the screen's size and the number of its lines.
pub proof fn lemma_inserted_cells_at_shape(s: ScreenView, x: int, y: int, count: int)
    requires
        s.wf(),
        0 <= y < s.physical_rows,
    ensures
        s.with_inserted_cells_at(x, y, count).wf(),
        s.with_inserted_cells_at(x, y, count).physical_rows == s.physical_rows,
        s.with_inserted_cells_at(x, y, count).physical_cols == s.physical_cols,
        s.with_inserted_cells_at(x, y, count).scrollback_size == s.scrollback_size,
        s.with_inserted_cells_at(x, y, count).lines.len() == s.lines.len(),
    decreases count,
{
    if count > 0 {
        lemma_inserted_cells_at_shape(s, x, y, count - 1);
        reveal(ScreenView::with_inserted_cell);
    }
}

/// Selection invalidation: erasing in the cursor's line drops a selection that holds one of
/// the erased columns, and then the text of the selection is empty.
pub proof fn lemma_erase_clears_selection(s: StateView, e: EraseInLine)
    requires
        s.wf(),
        s.selection_intersects(s.erase_start(e), s.erase_end(e), s.cursor.y as int),
    ensures
        s.erased_in_line(e).selection_range is None,
        s.erased_in_line(e).selection_text() == Seq::<char>::empty(),
{
    reveal(StateView::erased_in_line);
    reveal(StateView::cleared_if_intersects);
    reveal(StateView::with_active);
}

/// Whether two lines hold the same text, cell by cell.
pub open spec fn same_line_text(a: LineView, b: LineView) -> bool {
    &&& a.cells.len() == b.cells.len()
    &&& forall|j: int| 0 <= j < a.cells.len() ==> (#[trigger] a.cells[j]).text == b.cells[j].text
}

/// Whether two lists of lines hold the same text, line by line and cell by cell.
pub open spec fn same_cells(a: Seq<LineView>, b: Seq<LineView>) -> bool {
    &&& a.len() == b.len()
    &&& forall|i: int| 0 <= i < a.len() ==> same_line_text(#[trigger] a[i], b[i])
}

/// The number of lines a screen of `rows` rows gains when it is resized to `new_rows` rows.
pub open spec fn lines_gained(rows: usize, new_rows: usize) -> int {
    if new_rows > rows {
        new_rows - rows
    } else {
        0
    }
}

/// Whether a line holds the text of another in its first `cols` columns, cell by cell, and
/// is `cols` columns wide.
pub open spec fn keeps_text(new: LineView, old: LineView, cols: int) -> bool {
    &&& new.cells.len() == cols
    &&& forall|j: int|
        0 <= j < cols && j < old.cells.len() ==> (#[trigger] new.cells[j]).text
            == old.cells[j].text
}

/// Resizing a screen keeps every line it held, scrollback included, in order and in place,
/// each cut or padded to the new width, and adds the lines it gains at the bottom; this
/// holds as long as the lines are no more than a screen can hold, which is so whenever the
/// screen does not grow taller.
pub proof fn lemma_screen_resize_keeps_lines(s: ScreenView, rows: usize, cols: usize)
    requires
        s.wf(),
        1 <= rows <= MAX_DIMENSION,
        1 <= cols <= MAX_DIMENSION,
        s.lines.len() + lines_gained(s.physical_rows, rows) <= MAX_LINES,
    ensures
        s.resized(rows, cols).lines.len() == s.lines.len() + lines_gained(s.physical_rows, rows),
        forall|i: int|
            0 <= i < s.lines.len() ==> (#[trigger] s.resized(rows, cols).lines[i]).cells == sized(
                s.lines[i].cells,
                cols as int,
            ),
        forall|i: int|
            0 <= i < s.lines.len() ==> keeps_text(
                #[trigger] s.resized(rows, cols).lines[i],
                s.lines[i],
                cols as int,
            ),
{
    reveal(ScreenView::resized);
}

/// Resize keeps the scrollback and brings the cursor back onto the screen. After a resize
/// the cursor is within the new rows and columns. The primary screen still holds every
/// line it held before, scrollback included, in the same order and from its first line on,
/// with the same text in every cell that the new width has room for; this holds as long as
/// the lines are no more than a screen can hold, which is so whenever the terminal does not
/// grow taller.
pub proof fn lemma_resize_keeps_scrollback_and_clamps_cursor(
    s: StateView,
    rows: usize,
    cols: usize,
    pixel_width: usize,
    pixel_height: usize,
)
    requires
        s.wf(),
        1 <= rows <= MAX_DIMENSION,
        1 <= cols <= MAX_DIMENSION,
        s.screen.screen.lines.len() + lines_gained(s.screen.screen.physical_rows, rows)
            <= MAX_LINES,
    ensures
        s.resized(rows, cols, pixel_width, pixel_height).wf(),
        s.resized(rows, cols, pixel_width, pixel_height).rows() == rows,
        s.resized(rows, cols, pixel_width, pixel_height).cols() == cols,
        s.resized(rows, cols, pixel_width, pixel_height).cursor.y <= rows - 1,
        s.resized(rows, cols, pixel_width, pixel_height).cursor.x <= cols - 1,
        s.resized(rows, cols, pixel_width, pixel_height).cursor.y == clamp(
            s.cursor.y as int,
            0,
            rows - 1,
        ),
        s.resized(rows, cols, pixel_width, pixel_height).cursor.x == clamp(
            s.cursor.x as int,
            0,
            cols - 1,
        ),
        s.resized(rows, cols, pixel_width, pixel_height).screen.screen.lines.len()
            == s.screen.screen.lines.len() + lines_gained(s.screen.screen.physical_rows, rows),
        forall|i: int|
            0 <= i < s.screen.screen.lines.len() ==> keeps_text(
                #[trigger] s.resized(rows, cols, pixel_width, pixel_height).screen.screen.lines[i],
                s.screen.screen.lines[i],
                cols as int,
            ),
{
    reveal(StateView::resized);
    let sized_state = s.sized(rows, cols, pixel_width, pixel_height);
    crate::screen::lemma_resized_shape(s.screen.screen, rows, cols);
    crate::screen::lemma_resized_shape(s.screen.alt_screen, rows, cols);
    lemma_screen_resize_keeps_lines(s.screen.screen, rows, cols);
    assert(sized_state.wf());
    lemma_viewport_set_keeps_cells(sized_state, 0);
    let shown = sized_state.viewport_set(0);
    lemma_cursor_moved_keeps_cells(shown, Position::Relative(0), Position::Relative(0));
    lemma_viewport_set_keeps_cursor(sized_state, 0);
    let after = s.resized(rows, cols, pixel_width, pixel_height);
    let mid = s.screen.screen.resized(rows, cols).lines;
    assert(same_cells(after.screen.screen.lines, mid));
    assert forall|i: int| 0 <= i < s.screen.screen.lines.len() implies keeps_text(
        #[trigger] after.screen.screen.lines[i],
        s.screen.screen.lines[i],
        cols as int,
    ) by {
        assert(keeps_text(mid[i], s.screen.screen.lines[i], cols as int));
        assert(same_line_text(after.screen.screen.lines[i], mid[i]));
    }
    assert(after.cursor.y == clamp(s.cursor.y as int, 0, rows - 1) && after.cursor.x == clamp(
        s.cursor.x as int,
        0,
        cols - 1,
    )) by {
        reveal(StateView::cursor_moved);
    }
}

/// Moving the viewport leaves the cursor where it is.
pub proof fn lemma_viewport_set_keeps_cursor(s: StateView, position: int)
    requires
        s.wf(),
    ensures
        s.viewport_set(position).cursor == s.cursor,
{
    reveal(StateView::selection_dirtied);
    reveal(StateView::viewport_dirtied);
    reveal(StateView::highlight_recomputed);
    reveal(StateView::hyperlinks_invalidated);
    reveal(StateView::line_scanned);
    reveal(StateView::with_active);
}

/// Moving the viewport marks lines dirty and changes nothing else of the screens.
pub proof fn lemma_viewport_set_keeps_cells(s: StateView, position: int)
    requires
        s.wf(),
    ensures
        s.viewport_set(position).wf(),
        s.viewport_set(position).rows() == s.rows(),
        s.viewport_set(position).cols() == s.cols(),
        same_cells(s.viewport_set(position).screen.screen.lines, s.screen.screen.lines),
        same_cells(s.viewport_set(position).screen.alt_screen.lines, s.screen.alt_screen.lines),
{
    reveal(StateView::selection_dirtied);
    reveal(StateView::viewport_dirtied);
    reveal(StateView::highlight_recomputed);
    reveal(StateView::hyperlinks_invalidated);
    reveal(StateView::line_scanned);
    reveal(StateView::with_active);
    crate::model::lemma_selection_cleared(s);
    let cleared = s.selection_cleared();
    let pos = crate::model::clamp(position, 0, cleared.active().base());
    let moved = StateView { viewport_offset: pos as i64, ..cleared };
    assert(same_cells(cleared.screen.screen.lines, s.screen.screen.lines));
    assert(same_cells(cleared.screen.alt_screen.lines, s.screen.alt_screen.lines));
    let marked = moved.viewport_dirtied();
    assert(same_cells(marked.screen.screen.lines, s.screen.screen.lines));
    assert(same_cells(marked.screen.alt_screen.lines, s.screen.alt_screen.lines));
    assert(marked.wf());
    let row = marked.mouse_position.y - marked.viewport_offset;
    let idx = marked.active().row_index(row);
    crate::model::lemma_line_scanned_shape(marked, idx);
    let scanned = marked.line_scanned(idx);
    assert(same_cells(scanned.screen.screen.lines, marked.screen.screen.lines));
    assert(same_cells(scanned.screen.alt_screen.lines, marked.screen.alt_screen.lines));
    crate::model::lemma_highlight_recomputed_shape(marked);
}

/// Moving the cursor marks lines dirty and changes nothing else of the screens.
pub proof fn lemma_cursor_moved_keeps_cells(s: StateView, x: Position, y: Position)
    requires
        s.wf(),
    ensures
        s.cursor_moved(x, y).wf(),
        s.cursor_moved(x, y).rows() == s.rows(),
        s.cursor_moved(x, y).cols() == s.cols(),
        s.cursor_moved(x, y).cursor.x < s.cols(),
        s.cursor_moved(x, y).cursor.y < s.rows(),
        same_cells(s.cursor_moved(x, y).screen.screen.lines, s.screen.screen.lines),
        same_cells(s.cursor_moved(x, y).screen.alt_screen.lines, s.screen.alt_screen.lines),
{
    crate::model::lemma_cursor_moved_frame(s, x, y);
    reveal(StateView::cursor_moved);
    reveal(StateView::with_active);
    reveal(ScreenView::row_dirtied);
}

/// The run of word cells that starts at a column ends within the line, and holds word
/// cells only; the cell at its end, if there is one, is no word cell.
pub proof fn lemma_word_upper(cells: Seq<CellView>, i: int)
    requires
        0 <= i <= cells.len(),
    ensures
        i <= word_upper(cells, i) <= cells.len(),
        forall|k: int| i <= k < word_upper(cells, i) ==> is_word_text(#[trigger] cells[k].text),
        word_upper(cells, i) < cells.len() ==> !is_word_text(cells[word_upper(cells, i)].text),
    decreases cells.len() - i,
{
    if i < cells.len() && is_word_text(cells[i].text) {
        lemma_word_upper(cells, i + 1);
    }
}

/// The run of word cells that ends at a column starts within the line, and holds word cells
/// only; the cell before its start, if there is one, is no word cell.
pub proof fn lemma_word_lower(cells: Seq<CellView>, i: int)
    requires
        -1 <= i < cells.len(),
    ensures
        0 <= word_lower(cells, i) <= i + 1,
        forall|k: int| word_lower(cells, i) <= k <= i ==> is_word_text(#[trigger] cells[k].text),
        word_lower(cells, i) > 0 ==> !is_word_text(cells[word_lower(cells, i) - 1].text),
    decreases i + 1,
{
    if 0 <= i && is_word_text(cells[i].text) {
        lemma_word_lower(cells, i - 1);
    }
}

/// Word selection: a double click on a word cell selects the run of word cells around it and
/// no more. The columns it gives hold the clicked column and word cells only, and the cells
/// on either side of them, where there are any, are no word cells: a blank after the word is
/// left out.
pub proof fn lemma_double_click_selects_word(line: LineView, click: int)
    requires
        0 <= click < line.cells.len() <= usize::MAX,
        is_word_text(line.cells[click].text),
    ensures
        ({
            let (start, end) = match line.double_click_range(click) {
                DoubleClickRange::Range { start, end } => (start as int, end as int),
                DoubleClickRange::RangeWithWrap { start, end } => (start as int, end as int),
            };
            &&& 0 <= start <= click < end <= line.cells.len()
            &&& forall|k: int| start <= k < end ==> is_word_text(#[trigger] line.cells[k].text)
            &&& start > 0 ==> !is_word_text(line.cells[start - 1].text)
            &&& end < line.cells.len() ==> !is_word_text(line.cells[end].text)
            &&& line.double_click_range(click) is RangeWithWrap == line.cells[end - 1].attrs.wrapped
        }),
{
    lemma_word_upper(line.cells, click);
    lemma_word_lower(line.cells, click);
    assert(word_upper(line.cells, click) > click);
}

/// A double click on a word of a row that does not run on into the next row selects, in
/// that row, the first to the last column of the word.
pub proof fn lemma_double_click_selection(s: StateView, x: usize, y: i64)
    requires
        s.wf(),
        s.active().row_index(y as int) < s.active().lines.len(),
        x < s.active().lines[s.active().row_index(y as int)].cells.len() <= usize::MAX,
        is_word_text(s.active().lines[s.active().row_index(y as int)].cells[x as int].text),
        s.active().lines[s.active().row_index(y as int)].double_click_range(x as int) is Range,
    ensures
        ({
            let line = s.active().lines[s.active().row_index(y as int)];
            let word = s.word_at(x, y);
            &&& word.start.y == y && word.end.y == y
            &&& word.start.x <= x <= word.end.x < line.cells.len()
            &&& forall|k: int|
                word.start.x <= k <= word.end.x ==> is_word_text(#[trigger] line.cells[k].text)
            &&& word.start.x > 0 ==> !is_word_text(line.cells[word.start.x - 1].text)
            &&& word.end.x + 1 < line.cells.len() ==> !is_word_text(
                line.cells[word.end.x + 1].text,
            )
        }),
{
    let line = s.active().lines[s.active().row_index(y as int)];
    lemma_double_click_selects_word(line, x as int);
}

/// Clearing rows makes each of them a line of blanks with the given attributes and leaves
/// the other rows as they are.
pub proof fn lemma_rows_cleared(s: ScreenView, from: int, to: int, attrs: CellAttributes, y: int)
    requires
        s.wf(),
        0 <= from <= to <= s.physical_rows,
        0 <= y < s.physical_rows,
    ensures
        s.with_rows_cleared(from, to, attrs).lines.len() == s.lines.len(),
        s.with_rows_cleared(from, to, attrs).physical_rows == s.physical_rows,
        s.with_rows_cleared(from, to, attrs).physical_cols == s.physical_cols,
        s.with_rows_cleared(from, to, attrs).scrollback_size == s.scrollback_size,
        s.with_rows_cleared(from, to, attrs).row(y) == (if from <= y < to {
            LineView::cleared(s.physical_cols as int, attrs)
        } else {
            s.row(y)
        }),
    decreases to - from,
{
    if to > from {
        lemma_rows_cleared(s, from, to - 1, attrs, y);
    }
}

/// Dropping the selection row by row changes nothing but the selection.
pub proof fn lemma_selection_cleared_over_rows_frame(s: StateView, y: int, end: int)
    ensures
        s.selection_cleared_over_rows(y, end).screen == s.screen,
        s.selection_cleared_over_rows(y, end).cursor == s.cursor,
        s.selection_cleared_over_rows(y, end).pen == s.pen,
    decreases end - y,
{
    reveal(StateView::cleared_if_intersects);
    if y < end {
        let next = s.cleared_if_intersects(0, usize::MAX as int, y);
        if next.selection_range is Some {
            lemma_selection_cleared_over_rows_frame(next, y + 1, end);
        }
    }
}

/// Erasing the whole display makes every visible row a row of blanks with the pen's
/// attributes, as many as the screen is wide, and leaves the cursor where it is.
pub proof fn lemma_erase_display_uses_pen(s: StateView, y: int)
    requires
        s.wf(),
        0 <= y < s.rows(),
    ensures
        s.erased_in_display(EraseInDisplay::EraseDisplay).cursor == s.cursor,
        s.erased_in_display(EraseInDisplay::EraseDisplay).active().row(y) == LineView::cleared(
            s.cols(),
            s.pen.sgr_only(),
        ),
{
    reveal(StateView::rows_erased);
    let a = s.active().with_rows_cleared(0, s.rows(), s.pen.sgr_only());
    lemma_rows_cleared(s.active(), 0, s.rows(), s.pen.sgr_only(), y);
    assert(a.wf());
    lemma_with_active_wf(s, a);
    lemma_selection_cleared_over_rows_frame(s.with_active(a), 0, s.rows());
}

/// Erasing from the cursor to the end of its line makes the cells from the cursor's column
/// on blanks with the pen's attributes, also where the cursor is in the first column, and
/// leaves the cursor where it is.
pub proof fn lemma_erase_to_end_of_line_uses_pen(s: StateView)
    requires
        s.wf(),
    ensures
        s.erased_in_line(EraseInLine::EraseToEndOfLine).cursor == s.cursor,
        s.erased_in_line(EraseInLine::EraseToEndOfLine).active() == s.active().with_cleared(
            s.cursor.y as int,
            s.cursor.x as int,
            s.cols(),
            s.pen.sgr_only(),
        ),
        s.cursor.x == 0 && s.active().row(s.cursor.y as int).cells.len() <= s.cols()
            ==> s.erased_in_line(EraseInLine::EraseToEndOfLine).active().row(s.cursor.y as int)
            == LineView::cleared(s.cols(), s.pen.sgr_only()),
{
    reveal(StateView::erased_in_line);
    reveal(StateView::cleared_if_intersects);
    reveal(ScreenView::with_cleared);
    let a = s.active().with_cleared(
        s.cursor.y as int,
        s.cursor.x as int,
        s.cols(),
        s.pen.sgr_only(),
    );
    crate::screen::lemma_with_cleared_shape(
        s.active(),
        s.cursor.y as int,
        s.cursor.x as int,
        s.cols(),
        s.pen.sgr_only(),
    );
    lemma_with_active_wf(s, a);
}

} // verus!
