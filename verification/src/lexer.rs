//! The byte-level lexer: the `vtparse` state machine, fed one byte at a time.

use crate::views::views;
use vstd::prelude::*;
use vtparse::CollectingVTActor;
use vtparse::CsiParam;
use vtparse::VTAction;
use vtparse::VTParser;

verus! {

/// The state machine of `vtparse`. What it holds is not read here: the contracts speak of
/// it through the bytes it has consumed.
#[verifier::external_type_specification]
#[verifier::external_body]
pub struct ExVTParser(VTParser);

/// The lexical unit of `vtparse`, with its variants and fields as the crate declares them:
/// a character to print, a control code, the parts of a device control string, and the
/// parameters and final byte of an escape, control or operating system sequence.
#[verifier::external_type_specification]
pub struct ExVTAction(VTAction);

/// A parameter item of a control sequence as `vtparse` declares it: a number, or a
/// parameter byte that is no digit.
#[verifier::external_type_specification]
pub struct ExCsiParam(CsiParam);

/// What a parameter item of a control sequence is.
pub enum ParamView {
    Integer(i64),
    P(u8),
}

/// What a lexical unit is: the unit of `vtparse` with the contents of its vectors.
pub enum UnitView {
    Print(char),
    ExecuteC0orC1(u8),
    DcsHook { params: Seq<i64>, intermediates: Seq<u8>, ignored_excess_intermediates: bool, byte: u8 },
    DcsPut(u8),
    DcsUnhook,
    EscDispatch { params: Seq<i64>, intermediates: Seq<u8>, ignored_excess_intermediates: bool, byte: u8 },
    CsiDispatch { params: Seq<ParamView>, parameters_truncated: bool, byte: u8 },
    OscDispatch(Seq<Seq<u8>>),
    ApcDispatch(Seq<u8>),
}

/// What a parameter item holds.
pub open spec fn param_view(p: CsiParam) -> ParamView {
    match p {
        CsiParam::Integer(v) => ParamView::Integer(v),
        CsiParam::P(b) => ParamView::P(b),
    }
}

/// What the parameter items of a control sequence hold.
pub open spec fn param_views(items: Seq<CsiParam>) -> Seq<ParamView> {
    Seq::new(items.len(), |i: int| param_view(items[i]))
}

/// What a lexical unit holds.
pub open spec fn unit_view(unit: VTAction) -> UnitView {
    match unit {
        VTAction::Print(c) => UnitView::Print(c),
        VTAction::ExecuteC0orC1(b) => UnitView::ExecuteC0orC1(b),
        VTAction::DcsHook { params, intermediates, ignored_excess_intermediates, byte } => {
            UnitView::DcsHook {
                params: params@,
                intermediates: intermediates@,
                ignored_excess_intermediates,
                byte,
            }
        },
        VTAction::DcsPut(b) => UnitView::DcsPut(b),
        VTAction::DcsUnhook => UnitView::DcsUnhook,
        VTAction::EscDispatch { params, intermediates, ignored_excess_intermediates, byte } => {
            UnitView::EscDispatch {
                params: params@,
                intermediates: intermediates@,
                ignored_excess_intermediates,
                byte,
            }
        },
        VTAction::CsiDispatch { params, parameters_truncated, byte } => UnitView::CsiDispatch {
            params: param_views(params@),
            parameters_truncated,
            byte,
        },
        VTAction::OscDispatch(osc) => UnitView::OscDispatch(views(osc@)),
        VTAction::ApcDispatch(data) => UnitView::ApcDispatch(data@),
    }
}

/// What a list of lexical units holds.
pub open spec fn unit_views(units: Seq<VTAction>) -> Seq<UnitView> {
    Seq::new(units.len(), |i: int| unit_view(units[i]))
}

/// The bytes a state machine has consumed since it was made, in order. The state of the
/// machine is a function of these bytes.
pub uninterp spec fn fed(machine: VTParser) -> Seq<u8>;

/// What the lexical units hold that the state machine recognises when, having consumed
/// `history`, it is fed `byte`.
pub uninterp spec fn lexed(history: Seq<u8>, byte: u8) -> Seq<UnitView>;

/// `VTParser::new`: a state machine in its ground state, which has consumed nothing.
#[verifier::external_body]
pub(crate) fn new_machine() -> (machine: VTParser)
    ensures
        fed(machine) == Seq::<u8>::empty(),
{
    VTParser::new()
}

/// `VTParser::parse_byte` with a collecting actor: feeds one byte and hands back the units
/// recognised on it. The state machine is deterministic: what it emits depends on the bytes
/// consumed so far and on the new byte alone.
#[verifier::external_body]
pub(crate) fn lex_byte(machine: &mut VTParser, byte: u8) -> (units: Vec<VTAction>)
    ensures
        fed(*final(machine)) == fed(*old(machine)).push(byte),
        unit_views(units@) == lexed(fed(*old(machine)), byte),
{
    let mut actor = CollectingVTActor::default();
    machine.parse_byte(byte, &mut actor);
    actor.into_vec()
}

} // verus!
