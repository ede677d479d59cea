//! The escape sequence parser: bytes in, actions out.

use crate::escape::csi::copy_bytes;
use crate::escape::csi::copy_numbers;
use crate::escape::csi::csi_decoded;
use crate::escape::csi::CsiView;
use crate::escape::csi::CSI;
use crate::escape::esc::Esc;
use crate::escape::osc::osc_decoded;
use crate::escape::osc::OperatingSystemCommand;
use crate::escape::Action;
use crate::escape::ActionView;
use crate::escape::ControlCode;
use crate::escape::DeviceControlMode;
use crate::escape::DeviceControlView;
use crate::lexer::fed;
use crate::lexer::lex_byte;
use crate::lexer::lexed;
use crate::lexer::new_machine;
use crate::lexer::param_views;
use crate::lexer::unit_view;
use crate::lexer::unit_views;
use crate::lexer::ParamView;
use crate::lexer::UnitView;
use crate::views::lemma_views_push;
use crate::views::views;
use vstd::prelude::*;
use vtparse::CsiParam;
use vtparse::VTAction;
use vtparse::VTParser;

verus! {

/// What has been read of the parameters of a control sequence: the numbers whose field has
/// ended, the number of the field that is open, whether any field began, and the bytes that
/// are no digits and no semicolon.
pub struct ParamScan {
    pub numbers: Seq<i64>,
    pub current: Option<i64>,
    pub any: bool,
    pub intermediates: Seq<u8>,
}

/// The number of a field, zero where the field is empty.
pub open spec fn field_value(current: Option<i64>) -> i64 {
    match current {
        Some(v) => v,
        None => 0,
    }
}

/// What the first `upto` parameter items hold: a semicolon ends a field, a number fills the
/// open field, and any other byte is an intermediate.
pub open spec fn scan(items: Seq<ParamView>, upto: int) -> ParamScan
    decreases upto,
{
    if upto <= 0 {
        ParamScan { numbers: Seq::empty(), current: None, any: false, intermediates: Seq::empty() }
    } else {
        let p = scan(items, upto - 1);
        match items[upto - 1] {
            ParamView::Integer(v) => ParamScan { current: Some(v), any: true, ..p },
            ParamView::P(b) => if b == 0x3b {
                ParamScan {
                    numbers: p.numbers.push(field_value(p.current)),
                    current: None,
                    any: true,
                    ..p
                }
            } else {
                ParamScan { intermediates: p.intermediates.push(b), ..p }
            },
        }
    }
}

/// The numeric parameters of a control sequence: one for each field between semicolons, an
/// empty field counting as zero; none where there are neither numbers nor semicolons.
pub open spec fn csi_numbers(items: Seq<ParamView>) -> Seq<i64> {
    let p = scan(items, items.len() as int);
    if p.any {
        p.numbers.push(field_value(p.current))
    } else {
        p.numbers
    }
}

/// The intermediate bytes of a control sequence: its parameter bytes that are no digits and
/// no semicolon, in order.
pub open spec fn csi_intermediates(items: Seq<ParamView>) -> Seq<u8> {
    scan(items, items.len() as int).intermediates
}

/// Each control sequence operation as an action.
pub open spec fn csi_actions(list: Seq<CsiView>) -> Seq<ActionView> {
    Seq::new(list.len(), |i: int| ActionView::CSI(list[i]))
}

/// The actions that one lexical unit stands for.
pub open spec fn token_actions(token: UnitView) -> Seq<ActionView> {
    match token {
        UnitView::Print(c) => seq![ActionView::Print(c)],
        UnitView::ExecuteC0orC1(b) => match ControlCode::of(b) {
            Some(code) => seq![ActionView::Control(code)],
            None => Seq::empty(),
        },
        UnitView::DcsHook { params, intermediates, ignored_excess_intermediates, byte } => seq![
            ActionView::DeviceControl(
                DeviceControlView::Enter {
                    byte,
                    params,
                    intermediates,
                    ignored_extra_intermediates: ignored_excess_intermediates,
                },
            ),
        ],
        UnitView::DcsPut(b) => seq![ActionView::DeviceControl(DeviceControlView::Data(b))],
        UnitView::DcsUnhook => seq![ActionView::DeviceControl(DeviceControlView::Exit)],
        UnitView::EscDispatch { params, intermediates, ignored_excess_intermediates, byte } => seq![
            ActionView::Esc(
                Esc::decoded(
                    if intermediates.len() == 1 {
                        Some(intermediates[0])
                    } else {
                        None
                    },
                    byte,
                ),
            ),
        ],
        UnitView::CsiDispatch { params, parameters_truncated, byte } => csi_actions(
            csi_decoded(csi_numbers(params), csi_intermediates(params), parameters_truncated, byte),
        ),
        UnitView::OscDispatch(osc) => seq![ActionView::OperatingSystemCommand(osc_decoded(osc))],
        UnitView::ApcDispatch(_) => Seq::empty(),
    }
}

/// The actions that the first `upto` of a list of lexical units stand for.
pub open spec fn tokens_actions(tokens: Seq<UnitView>, upto: int) -> Seq<ActionView>
    decreases upto,
{
    if upto <= 0 {
        Seq::empty()
    } else {
        tokens_actions(tokens, upto - 1) + token_actions(tokens[upto - 1])
    }
}

/// The actions that a byte completes, for a parser that has consumed `history`.
pub open spec fn byte_actions(history: Seq<u8>, byte: u8) -> Seq<ActionView> {
    tokens_actions(lexed(history, byte), lexed(history, byte).len() as int)
}

/// The actions that the first `upto` bytes of `bytes` complete, for a parser that has
/// consumed `history`.
pub open spec fn bytes_actions(history: Seq<u8>, bytes: Seq<u8>, upto: int) -> Seq<ActionView>
    decreases upto,
{
    if upto <= 0 {
        Seq::empty()
    } else {
        bytes_actions(history, bytes, upto - 1) + byte_actions(
            history + bytes.subrange(0, upto - 1),
            bytes[upto - 1],
        )
    }
}

/// The index at or after `from` of the first byte of `bytes` that completes an action, for
/// a parser that has consumed `history`, where there is one.
pub open spec fn first_action_at(history: Seq<u8>, bytes: Seq<u8>, from: int) -> Option<int>
    decreases bytes.len() - from,
{
    if from < 0 || from >= bytes.len() {
        None
    } else if byte_actions(history + bytes.subrange(0, from), bytes[from]).len() > 0 {
        Some(from)
    } else {
        first_action_at(history, bytes, from + 1)
    }
}

fn split_params(items: &Vec<CsiParam>) -> (r: (Vec<i64>, Vec<u8>))
    ensures
        r.0@ == csi_numbers(param_views(items@)),
        r.1@ == csi_intermediates(param_views(items@)),
{
    let mut numbers: Vec<i64> = Vec::new();
    let mut intermediates: Vec<u8> = Vec::new();
    let mut current: Option<i64> = None;
    let mut any = false;
    let mut i: usize = 0;
    while i < items.len()
        invariant
            i <= items.len(),
            scan(param_views(items@), i as int) == (ParamScan {
                numbers: numbers@,
                current,
                any,
                intermediates: intermediates@,
            }),
        decreases items.len() - i,
    {
        match &items[i] {
            CsiParam::Integer(v) => {
                current = Some(*v);
                any = true;
            },
            CsiParam::P(b) => {
                if *b == 0x3b {
                    numbers.push(
                        match current {
                            Some(v) => v,
                            None => 0,
                        },
                    );
                    current = None;
                    any = true;
                } else {
                    intermediates.push(*b);
                }
            },
        }
        i = i + 1;
    }
    if any {
        numbers.push(
            match current {
                Some(v) => v,
                None => 0,
            },
        );
    }
    (numbers, intermediates)
}

fn wrap_csi(list: Vec<CSI>) -> (actions: Vec<Action>)
    ensures
        views(actions@) == csi_actions(views(list@)),
{
    let mut list = list;
    let ghost all = views(list@);
    let total = list.len();
    let mut actions: Vec<Action> = Vec::new();
    proof {
        assert(all.subrange(0, all.len() as int) =~= all);
        assert(views(actions@) =~= csi_actions(all.subrange(0, 0)));
    }
    while list.len() > 0
        invariant
            actions@.len() + list@.len() == all.len(),
            all.len() == total,
            views(list@) == all.subrange(actions@.len() as int, all.len() as int),
            views(actions@) == csi_actions(all.subrange(0, actions@.len() as int)),
        decreases list.len(),
    {
        let ghost before = list@;
        let ghost done: int = actions@.len() as int;
        proof {
            crate::views::lemma_views_remove(before, 0);
            assert(views(before)[0] == all[done]);
            assert(views(before).remove(0) =~= all.subrange(done + 1, all.len() as int));
        }
        let item = Action::CSI(list.remove(0));
        proof {
            lemma_views_push(actions@, item);
        }
        actions.push(item);
        assert(views(actions@) =~= csi_actions(all.subrange(0, done + 1)));
    }
    assert(all.subrange(0, all.len() as int) =~= all);
    actions
}

fn single(action: Action) -> (actions: Vec<Action>)
    ensures
        views(actions@) == seq![action@],
{
    let mut actions: Vec<Action> = Vec::new();
    actions.push(action);
    assert(views(actions@) =~= seq![action@]);
    actions
}

fn nothing() -> (actions: Vec<Action>)
    ensures
        views(actions@) == Seq::<ActionView>::empty(),
{
    let actions: Vec<Action> = Vec::new();
    assert(views(actions@) =~= Seq::<ActionView>::empty());
    actions
}

/// The actions that one lexical unit stands for.
pub(crate) fn decode_token(token: &VTAction) -> (actions: Vec<Action>)
    ensures
        views(actions@) == token_actions(unit_view(*token)),
{
    match token {
        VTAction::Print(c) => single(Action::Print(*c)),
        VTAction::ExecuteC0orC1(b) => match ControlCode::from_u8(*b) {
            Some(code) => single(Action::Control(code)),
            None => nothing(),
        },
        VTAction::DcsHook { params, intermediates, ignored_excess_intermediates, byte } => {
            proof {
                assert(params@.skip(0) =~= params@);
            }
            single(
                Action::DeviceControl(
                    DeviceControlMode::Enter {
                        byte: *byte,
                        params: copy_numbers(params.as_slice(), 0),
                        intermediates: copy_bytes(intermediates.as_slice()),
                        ignored_extra_intermediates: *ignored_excess_intermediates,
                    },
                ),
            )
        },
        VTAction::DcsPut(b) => single(Action::DeviceControl(DeviceControlMode::Data(*b))),
        VTAction::DcsUnhook => single(Action::DeviceControl(DeviceControlMode::Exit)),
        VTAction::EscDispatch { params, intermediates, ignored_excess_intermediates, byte } => {
            let intermediate = if intermediates.len() == 1 {
                Some(intermediates[0])
            } else {
                None
            };
            single(Action::Esc(Esc::parse(intermediate, *byte)))
        },
        VTAction::CsiDispatch { params, parameters_truncated, byte } => {
            let (numbers, intermediates) = split_params(params);
            wrap_csi(
                CSI::parse(numbers.as_slice(), intermediates.as_slice(), *parameters_truncated, *byte),
            )
        },
        VTAction::OscDispatch(osc) => single(
            Action::OperatingSystemCommand(OperatingSystemCommand::parse(osc)),
        ),
        VTAction::ApcDispatch(_) => nothing(),
    }
}

/// Moves the actions of `more` to the end of `actions`.
pub fn append_actions(actions: &mut Vec<Action>, more: Vec<Action>)
    ensures
        views(final(actions)@) == views(old(actions)@) + views(more@),
{
    let mut more = more;
    let ghost start = views(actions@);
    let ghost all = views(more@);
    let total = more.len();
    let mut done: usize = 0;
    proof {
        assert(all.subrange(0, all.len() as int) =~= all);
        assert(start + all.subrange(0, 0) =~= start);
    }
    while more.len() > 0
        invariant
            done + more@.len() == all.len(),
            all.len() == total,
            views(more@) == all.subrange(done as int, all.len() as int),
            views(actions@) == start + all.subrange(0, done as int),
        decreases more.len(),
    {
        let ghost before = more@;
        proof {
            crate::views::lemma_views_remove(before, 0);
            assert(views(before)[0] == all[done as int]);
            assert(views(before).remove(0) =~= all.subrange(done + 1, all.len() as int));
        }
        let item = more.remove(0);
        proof {
            lemma_views_push(actions@, item);
        }
        actions.push(item);
        assert(views(actions@) =~= start + all.subrange(0, done + 1));
        done = done + 1;
    }
    assert(all.subrange(0, all.len() as int) =~= all);
}

/// Something that takes the actions of a parser, one after the other.
pub trait ActionSink {
    /// The actions taken so far, in order.
    spec fn seen(&self) -> Seq<ActionView>;

    /// Takes one action.
    fn accept(&mut self, action: Action)
        ensures
            final(self).seen() == old(self).seen().push(action@),
    ;
}

/// A sink that keeps the actions it takes.
pub struct ActionLog {
    pub actions: Vec<Action>,
}

impl ActionLog {
    /// A log that holds no action yet.
    pub fn new() -> (log: ActionLog)
        ensures
            log.seen() == Seq::<ActionView>::empty(),
    {
        let log = ActionLog { actions: Vec::new() };
        assert(views(log.actions@) =~= Seq::<ActionView>::empty());
        log
    }
}

impl ActionSink for ActionLog {
    open spec fn seen(&self) -> Seq<ActionView> {
        views(self.actions@)
    }

    fn accept(&mut self, action: Action) {
        proof {
            lemma_views_push(self.actions@, action);
        }
        self.actions.push(action);
    }
}

/// The state machine that decodes a stream of bytes into actions. The stream may come in
/// pieces: a sequence that is split between two calls is recognised all the same.
pub struct Parser {
    state_machine: VTParser,
}

impl Parser {
    /// The bytes the parser has consumed since it was made.
    pub closed spec fn history(&self) -> Seq<u8> {
        fed(self.state_machine)
    }

    /// A parser that has consumed nothing.
    pub fn new() -> (p: Parser)
        ensures
            p.history() == Seq::<u8>::empty(),
    {
        Parser { state_machine: new_machine() }
    }

    /// Feeds one byte and hands back the actions it completes.
    pub fn parse_byte(&mut self, byte: u8) -> (actions: Vec<Action>)
        ensures
            views(actions@) == byte_actions(old(self).history(), byte),
            final(self).history() == old(self).history().push(byte),
    {
        let tokens = lex_byte(&mut self.state_machine, byte);
        let mut actions: Vec<Action> = nothing();
        let mut i: usize = 0;
        while i < tokens.len()
            invariant
                i <= tokens.len(),
                views(actions@) == tokens_actions(unit_views(tokens@), i as int),
            decreases tokens.len() - i,
        {
            let more = decode_token(&tokens[i]);
            append_actions(&mut actions, more);
            i = i + 1;
        }
        actions
    }

    /// Feeds all the bytes and hands back the actions they complete, in order.
    pub fn parse_as_vec(&mut self, bytes: &[u8]) -> (actions: Vec<Action>)
        ensures
            views(actions@) == bytes_actions(old(self).history(), bytes@, bytes@.len() as int),
            final(self).history() == old(self).history() + bytes@,
    {
        let mut actions: Vec<Action> = nothing();
        let mut i: usize = 0;
        proof {
            assert(old(self).history() + bytes@.subrange(0, 0) =~= old(self).history());
        }
        while i < bytes.len()
            invariant
                i <= bytes.len(),
                self.history() == old(self).history() + bytes@.subrange(0, i as int),
                views(actions@) == bytes_actions(old(self).history(), bytes@, i as int),
            decreases bytes.len() - i,
        {
            let more = self.parse_byte(bytes[i]);
            append_actions(&mut actions, more);
            proof {
                assert(self.history() =~= old(self).history() + bytes@.subrange(0, i + 1));
            }
            i = i + 1;
        }
        proof {
            assert(bytes@.subrange(0, bytes@.len() as int) =~= bytes@);
        }
        actions
    }

    /// Feeds all the bytes and hands each action they complete to `sink`, in order.
    pub fn parse<S: ActionSink>(&mut self, bytes: &[u8], sink: &mut S)
        ensures
            final(self).history() == old(self).history() + bytes@,
            final(sink).seen() == old(sink).seen() + bytes_actions(
                old(self).history(),
                bytes@,
                bytes@.len() as int,
            ),
    {
        let mut actions = self.parse_as_vec(bytes);
        let ghost all = views(actions@);
        let total = actions.len();
        let mut done: usize = 0;
        proof {
            assert(all.subrange(0, all.len() as int) =~= all);
            assert(sink.seen() + all.subrange(0, 0) =~= sink.seen());
        }
        while actions.len() > 0
            invariant
                done + actions@.len() == all.len(),
                all.len() == total,
                views(actions@) == all.subrange(done as int, all.len() as int),
                sink.seen() == old(sink).seen() + all.subrange(0, done as int),
            decreases actions.len(),
        {
            let ghost before = actions@;
            proof {
                crate::views::lemma_views_remove(before, 0);
                assert(views(before)[0] == all[done as int]);
                assert(views(before).remove(0) =~= all.subrange(done + 1, all.len() as int));
            }
            let action = actions.remove(0);
            sink.accept(action);
            assert(sink.seen() =~= old(sink).seen() + all.subrange(0, done + 1));
            done = done + 1;
        }
        assert(all.subrange(0, all.len() as int) =~= all);
    }

    /// Feeds bytes until one of them completes an action, and hands back the actions that
    /// byte completes with the number of bytes consumed; nothing if no byte completes one.
    pub fn parse_first_as_vec(&mut self, bytes: &[u8]) -> (r: Option<(Vec<Action>, usize)>)
        ensures
            r is Some == first_action_at(old(self).history(), bytes@, 0) is Some,
            r matches Some((actions, used)) ==> {
                let at = first_action_at(old(self).history(), bytes@, 0).unwrap();
                &&& used == at + 1
                &&& used <= bytes@.len()
                &&& actions@.len() > 0
                &&& views(actions@) == byte_actions(
                    old(self).history() + bytes@.subrange(0, at),
                    bytes@[at],
                )
                &&& final(self).history() == old(self).history() + bytes@.subrange(0, used as int)
            },
            r is None ==> final(self).history() == old(self).history() + bytes@,
    {
        let mut i: usize = 0;
        proof {
            assert(old(self).history() + bytes@.subrange(0, 0) =~= old(self).history());
        }
        while i < bytes.len()
            invariant
                i <= bytes.len(),
                self.history() == old(self).history() + bytes@.subrange(0, i as int),
                first_action_at(old(self).history(), bytes@, i as int) == first_action_at(
                    old(self).history(),
                    bytes@,
                    0,
                ),
            decreases bytes.len() - i,
        {
            let actions = self.parse_byte(bytes[i]);
            proof {
                assert(self.history() =~= old(self).history() + bytes@.subrange(0, i + 1));
                assert(views(actions@).len() == actions@.len());
            }
            if actions.len() > 0 {
                return Some((actions, i + 1));
            }
            i = i + 1;
        }
        proof {
            assert(bytes@.subrange(0, bytes@.len() as int) =~= bytes@);
        }
        None
    }

    /// Feeds bytes until one of them completes an action, and hands back the first action
    /// that byte completes with the number of bytes consumed; nothing if no byte completes
    /// one.
    pub fn parse_first(&mut self, bytes: &[u8]) -> (r: Option<(Action, usize)>)
        ensures
            r is Some == first_action_at(old(self).history(), bytes@, 0) is Some,
            r matches Some((action, used)) ==> {
                let at = first_action_at(old(self).history(), bytes@, 0).unwrap();
                &&& used == at + 1
                &&& used <= bytes@.len()
                &&& action@ == byte_actions(
                    old(self).history() + bytes@.subrange(0, at),
                    bytes@[at],
                )[0]
                &&& final(self).history() == old(self).history() + bytes@.subrange(0, used as int)
            },
            r is None ==> final(self).history() == old(self).history() + bytes@,
    {
        match self.parse_first_as_vec(bytes) {
            Some((actions, used)) => {
                let mut actions = actions;
                proof {
                    assert(views(actions@).len() == actions@.len());
                    assert(views(actions@)[0] == actions@[0]@);
                }
                let first = actions.remove(0);
                Some((first, used))
            },
            None => None,
        }
    }
}

} // verus!
