//! Escape sequences as structured actions.

pub mod csi;
pub mod esc;
pub mod osc;

use crate::escape::csi::CsiView;
use crate::escape::csi::CSI;
use crate::escape::esc::Esc;
use crate::escape::osc::OperatingSystemCommand;
use crate::escape::osc::OscView;
use vstd::prelude::*;

verus! {

/// A C0 or C1 control code.
#[derive(Clone, Copy, Debug, PartialEq, Eq, Structural)]
pub enum ControlCode {
    Null,
    StartOfHeading,
    StartOfText,
    EndOfText,
    EndOfTransmission,
    Enquiry,
    Acknowledge,
    Bell,
    Backspace,
    HorizontalTab,
    LineFeed,
    VerticalTab,
    FormFeed,
    CarriageReturn,
    ShiftOut,
    ShiftIn,
    DataLinkEscape,
    DeviceControlOne,
    DeviceControlTwo,
    DeviceControlThree,
    DeviceControlFour,
    NegativeAcknowledge,
    SynchronousIdle,
    EndOfTransmissionBlock,
    Cancel,
    EndOfMedium,
    Substitute,
    Escape,
    FileSeparator,
    GroupSeparator,
    RecordSeparator,
    UnitSeparator,
    BPH,
    NBH,
    NEL,
    SSA,
    ESA,
    HTS,
    HTJ,
    VTS,
    PLD,
    PLU,
    RI,
    SS2,
    SS3,
    DCS,
    PU1,
    PU2,
    STS,
    CCH,
    MW,
    SPA,
    EPA,
    SOS,
    SCI,
    CSI,
    ST,
    OSC,
    PM,
    APC,
}

impl ControlCode {
    /// The byte that stands for the control code.
    pub open spec fn byte(self) -> u8 {
        match self {
            ControlCode::Null => 0x00,
            ControlCode::StartOfHeading => 0x01,
            ControlCode::StartOfText => 0x02,
            ControlCode::EndOfText => 0x03,
            ControlCode::EndOfTransmission => 0x04,
            ControlCode::Enquiry => 0x05,
            ControlCode::Acknowledge => 0x06,
            ControlCode::Bell => 0x07,
            ControlCode::Backspace => 0x08,
            ControlCode::HorizontalTab => 0x09,
            ControlCode::LineFeed => 0x0a,
            ControlCode::VerticalTab => 0x0b,
            ControlCode::FormFeed => 0x0c,
            ControlCode::CarriageReturn => 0x0d,
            ControlCode::ShiftOut => 0x0e,
            ControlCode::ShiftIn => 0x0f,
            ControlCode::DataLinkEscape => 0x10,
            ControlCode::DeviceControlOne => 0x11,
            ControlCode::DeviceControlTwo => 0x12,
            ControlCode::DeviceControlThree => 0x13,
            ControlCode::DeviceControlFour => 0x14,
            ControlCode::NegativeAcknowledge => 0x15,
            ControlCode::SynchronousIdle => 0x16,
            ControlCode::EndOfTransmissionBlock => 0x17,
            ControlCode::Cancel => 0x18,
            ControlCode::EndOfMedium => 0x19,
            ControlCode::Substitute => 0x1a,
            ControlCode::Escape => 0x1b,
            ControlCode::FileSeparator => 0x1c,
            ControlCode::GroupSeparator => 0x1d,
            ControlCode::RecordSeparator => 0x1e,
            ControlCode::UnitSeparator => 0x1f,
            ControlCode::BPH => 0x82,
            ControlCode::NBH => 0x83,
            ControlCode::NEL => 0x85,
            ControlCode::SSA => 0x86,
            ControlCode::ESA => 0x87,
            ControlCode::HTS => 0x88,
            ControlCode::HTJ => 0x89,
            ControlCode::VTS => 0x8a,
            ControlCode::PLD => 0x8b,
            ControlCode::PLU => 0x8c,
            ControlCode::RI => 0x8d,
            ControlCode::SS2 => 0x8e,
            ControlCode::SS3 => 0x8f,
            ControlCode::DCS => 0x90,
            ControlCode::PU1 => 0x91,
            ControlCode::PU2 => 0x92,
            ControlCode::STS => 0x93,
            ControlCode::CCH => 0x94,
            ControlCode::MW => 0x95,
            ControlCode::SPA => 0x96,
            ControlCode::EPA => 0x97,
            ControlCode::SOS => 0x98,
            ControlCode::SCI => 0x9a,
            ControlCode::CSI => 0x9b,
            ControlCode::ST => 0x9c,
            ControlCode::OSC => 0x9d,
            ControlCode::PM => 0x9e,
            ControlCode::APC => 0x9f,
        }
    }

    /// The control code that a byte stands for, if it stands for one.
    pub open spec fn of(byte: u8) -> Option<ControlCode> {
        if byte == 0x00 {
            Some(ControlCode::Null)
        }         else if byte == 0x01 {
            Some(ControlCode::StartOfHeading)
        }         else if byte == 0x02 {
            Some(ControlCode::StartOfText)
        }         else if byte == 0x03 {
            Some(ControlCode::EndOfText)
        }         else if byte == 0x04 {
            Some(ControlCode::EndOfTransmission)
        }         else if byte == 0x05 {
            Some(ControlCode::Enquiry)
        }         else if byte == 0x06 {
            Some(ControlCode::Acknowledge)
        }         else if byte == 0x07 {
            Some(ControlCode::Bell)
        }         else if byte == 0x08 {
            Some(ControlCode::Backspace)
        }         else if byte == 0x09 {
            Some(ControlCode::HorizontalTab)
        }         else if byte == 0x0a {
            Some(ControlCode::LineFeed)
        }         else if byte == 0x0b {
            Some(ControlCode::VerticalTab)
        }         else if byte == 0x0c {
            Some(ControlCode::FormFeed)
        }         else if byte == 0x0d {
            Some(ControlCode::CarriageReturn)
        }         else if byte == 0x0e {
            Some(ControlCode::ShiftOut)
        }         else if byte == 0x0f {
            Some(ControlCode::ShiftIn)
        }         else if byte == 0x10 {
            Some(ControlCode::DataLinkEscape)
        }         else if byte == 0x11 {
            Some(ControlCode::DeviceControlOne)
        }         else if byte == 0x12 {
            Some(ControlCode::DeviceControlTwo)
        }         else if byte == 0x13 {
            Some(ControlCode::DeviceControlThree)
        }         else if byte == 0x14 {
            Some(ControlCode::DeviceControlFour)
        }         else if byte == 0x15 {
            Some(ControlCode::NegativeAcknowledge)
        }         else if byte == 0x16 {
            Some(ControlCode::SynchronousIdle)
        }         else if byte == 0x17 {
            Some(ControlCode::EndOfTransmissionBlock)
        }         else if byte == 0x18 {
            Some(ControlCode::Cancel)
        }         else if byte == 0x19 {
            Some(ControlCode::EndOfMedium)
        }         else if byte == 0x1a {
            Some(ControlCode::Substitute)
        }         else if byte == 0x1b {
            Some(ControlCode::Escape)
        }         else if byte == 0x1c {
            Some(ControlCode::FileSeparator)
        }         else if byte == 0x1d {
            Some(ControlCode::GroupSeparator)
        }         else if byte == 0x1e {
            Some(ControlCode::RecordSeparator)
        }         else if byte == 0x1f {
            Some(ControlCode::UnitSeparator)
        }         else if byte == 0x82 {
            Some(ControlCode::BPH)
        }         else if byte == 0x83 {
            Some(ControlCode::NBH)
        }         else if byte == 0x85 {
            Some(ControlCode::NEL)
        }         else if byte == 0x86 {
            Some(ControlCode::SSA)
        }         else if byte == 0x87 {
            Some(ControlCode::ESA)
        }         else if byte == 0x88 {
            Some(ControlCode::HTS)
        }         else if byte == 0x89 {
            Some(ControlCode::HTJ)
        }         else if byte == 0x8a {
            Some(ControlCode::VTS)
        }         else if byte == 0x8b {
            Some(ControlCode::PLD)
        }         else if byte == 0x8c {
            Some(ControlCode::PLU)
        }         else if byte == 0x8d {
            Some(ControlCode::RI)
        }         else if byte == 0x8e {
            Some(ControlCode::SS2)
        }         else if byte == 0x8f {
            Some(ControlCode::SS3)
        }         else if byte == 0x90 {
            Some(ControlCode::DCS)
        }         else if byte == 0x91 {
            Some(ControlCode::PU1)
        }         else if byte == 0x92 {
            Some(ControlCode::PU2)
        }         else if byte == 0x93 {
            Some(ControlCode::STS)
        }         else if byte == 0x94 {
            Some(ControlCode::CCH)
        }         else if byte == 0x95 {
            Some(ControlCode::MW)
        }         else if byte == 0x96 {
            Some(ControlCode::SPA)
        }         else if byte == 0x97 {
            Some(ControlCode::EPA)
        }         else if byte == 0x98 {
            Some(ControlCode::SOS)
        }         else if byte == 0x9a {
            Some(ControlCode::SCI)
        }         else if byte == 0x9b {
            Some(ControlCode::CSI)
        }         else if byte == 0x9c {
            Some(ControlCode::ST)
        }         else if byte == 0x9d {
            Some(ControlCode::OSC)
        }         else if byte == 0x9e {
            Some(ControlCode::PM)
        }         else if byte == 0x9f {
            Some(ControlCode::APC)
        } else {
            None
        }
    }

    /// Whether a byte stands for a control code.
    pub open spec fn is_code(byte: u8) -> bool {
        byte <= 0x1f || (0x82 <= byte <= 0x9f && byte != 0x84 && byte != 0x99)
    }

    /// The control code that `byte` stands for, if it stands for one.
    pub fn from_u8(byte: u8) -> (code: Option<ControlCode>)
        ensures
            code == ControlCode::of(byte),
            code is Some == ControlCode::is_code(byte),
            code matches Some(c) ==> c.byte() == byte,
    {
        match byte {
            0x00 => Some(ControlCode::Null),
            0x01 => Some(ControlCode::StartOfHeading),
            0x02 => Some(ControlCode::StartOfText),
            0x03 => Some(ControlCode::EndOfText),
            0x04 => Some(ControlCode::EndOfTransmission),
            0x05 => Some(ControlCode::Enquiry),
            0x06 => Some(ControlCode::Acknowledge),
            0x07 => Some(ControlCode::Bell),
            0x08 => Some(ControlCode::Backspace),
            0x09 => Some(ControlCode::HorizontalTab),
            0x0a => Some(ControlCode::LineFeed),
            0x0b => Some(ControlCode::VerticalTab),
            0x0c => Some(ControlCode::FormFeed),
            0x0d => Some(ControlCode::CarriageReturn),
            0x0e => Some(ControlCode::ShiftOut),
            0x0f => Some(ControlCode::ShiftIn),
            0x10 => Some(ControlCode::DataLinkEscape),
            0x11 => Some(ControlCode::DeviceControlOne),
            0x12 => Some(ControlCode::DeviceControlTwo),
            0x13 => Some(ControlCode::DeviceControlThree),
            0x14 => Some(ControlCode::DeviceControlFour),
            0x15 => Some(ControlCode::NegativeAcknowledge),
            0x16 => Some(ControlCode::SynchronousIdle),
            0x17 => Some(ControlCode::EndOfTransmissionBlock),
            0x18 => Some(ControlCode::Cancel),
            0x19 => Some(ControlCode::EndOfMedium),
            0x1a => Some(ControlCode::Substitute),
            0x1b => Some(ControlCode::Escape),
            0x1c => Some(ControlCode::FileSeparator),
            0x1d => Some(ControlCode::GroupSeparator),
            0x1e => Some(ControlCode::RecordSeparator),
            0x1f => Some(ControlCode::UnitSeparator),
            0x82 => Some(ControlCode::BPH),
            0x83 => Some(ControlCode::NBH),
            0x85 => Some(ControlCode::NEL),
            0x86 => Some(ControlCode::SSA),
            0x87 => Some(ControlCode::ESA),
            0x88 => Some(ControlCode::HTS),
            0x89 => Some(ControlCode::HTJ),
            0x8a => Some(ControlCode::VTS),
            0x8b => Some(ControlCode::PLD),
            0x8c => Some(ControlCode::PLU),
            0x8d => Some(ControlCode::RI),
            0x8e => Some(ControlCode::SS2),
            0x8f => Some(ControlCode::SS3),
            0x90 => Some(ControlCode::DCS),
            0x91 => Some(ControlCode::PU1),
            0x92 => Some(ControlCode::PU2),
            0x93 => Some(ControlCode::STS),
            0x94 => Some(ControlCode::CCH),
            0x95 => Some(ControlCode::MW),
            0x96 => Some(ControlCode::SPA),
            0x97 => Some(ControlCode::EPA),
            0x98 => Some(ControlCode::SOS),
            0x9a => Some(ControlCode::SCI),
            0x9b => Some(ControlCode::CSI),
            0x9c => Some(ControlCode::ST),
            0x9d => Some(ControlCode::OSC),
            0x9e => Some(ControlCode::PM),
            0x9f => Some(ControlCode::APC),
            _ => None,
        }
    }
}

/// A number that counts from one, as rows and columns do in escape sequences.
#[derive(Clone, Copy, Debug, PartialEq, Eq, Structural)]
pub struct OneBased {
    pub value: u32,
}

impl OneBased {
    /// The one-based number of an escape sequence parameter: a parameter of zero, which
    /// stands for an omitted one, counts as one; a parameter out of range has none.
    pub open spec fn of_param(v: i64) -> Option<OneBased> {
        if v == 0 {
            Some(OneBased { value: 1 })
        } else if 0 < v <= u32::MAX {
            Some(OneBased { value: v as u32 })
        } else {
            None
        }
    }

    /// The number counted from zero.
    pub open spec fn zero_based(self) -> u32 {
        if self.value == 0 {
            0
        } else {
            (self.value - 1) as u32
        }
    }

    /// The one-based number that stands for a number counted from zero.
    pub open spec fn of_zero_based(v: u32) -> OneBased {
        OneBased { value: if v == u32::MAX { v } else { (v + 1) as u32 } }
    }

    /// The one-based number with the given value.
    pub fn new(value: u32) -> (n: OneBased)
        ensures
            n.value == value,
    {
        OneBased { value }
    }

    /// The one-based number that stands for the zero-based `value`.
    pub fn from_zero_based(value: u32) -> (n: OneBased)
        ensures
            n == OneBased::of_zero_based(value),
    {
        OneBased { value: value.saturating_add(1) }
    }

    /// The one-based number of an escape sequence parameter.
    pub fn from_esc_param(v: i64) -> (n: Option<OneBased>)
        ensures
            n == OneBased::of_param(v),
    {
        if v == 0 {
            Some(OneBased { value: 1 })
        } else if 0 < v && v <= u32::MAX as i64 {
            Some(OneBased { value: v as u32 })
        } else {
            None
        }
    }

    /// The number counted from zero.
    pub fn as_zero_based(&self) -> (v: u32)
        ensures
            v == self.zero_based(),
    {
        self.value.saturating_sub(1)
    }

    /// The number counted from one.
    pub fn as_one_based(&self) -> (v: u32)
        ensures
            v == self.value,
    {
        self.value
    }
}

/// What a step of a device control string is.
pub enum DeviceControlView {
    Enter { byte: u8, params: Seq<i64>, intermediates: Seq<u8>, ignored_extra_intermediates: bool },
    Exit,
    Data(u8),
}

/// How a device control string goes on.
#[derive(Debug)]
pub enum DeviceControlMode {
    /// The string begins, with this final byte and these parameters.
    Enter { byte: u8, params: Vec<i64>, intermediates: Vec<u8>, ignored_extra_intermediates: bool },
    /// The string ends.
    Exit,
    /// One byte of the string's data.
    Data(u8),
}

impl View for DeviceControlMode {
    type V = DeviceControlView;

    open spec fn view(&self) -> DeviceControlView {
        match *self {
            DeviceControlMode::Enter { byte, params, intermediates, ignored_extra_intermediates } => {
                DeviceControlView::Enter {
                    byte,
                    params: params@,
                    intermediates: intermediates@,
                    ignored_extra_intermediates,
                }
            },
            DeviceControlMode::Exit => DeviceControlView::Exit,
            DeviceControlMode::Data(b) => DeviceControlView::Data(b),
        }
    }
}

/// What a decoded unit of the input stream is.
pub enum ActionView {
    Print(char),
    Control(ControlCode),
    DeviceControl(DeviceControlView),
    OperatingSystemCommand(OscView),
    CSI(CsiView),
    Esc(Esc),
}

/// One decoded unit of the input stream.
#[derive(Debug)]
pub enum Action {
    /// A character to show.
    Print(char),
    /// A C0 or C1 control code.
    Control(ControlCode),
    /// A step of a device control string.
    DeviceControl(DeviceControlMode),
    /// An operating system command.
    OperatingSystemCommand(OperatingSystemCommand),
    /// A control sequence.
    CSI(CSI),
    /// An escape sequence.
    Esc(Esc),
}

impl View for Action {
    type V = ActionView;

    open spec fn view(&self) -> ActionView {
        match *self {
            Action::Print(c) => ActionView::Print(c),
            Action::Control(c) => ActionView::Control(c),
            Action::DeviceControl(d) => ActionView::DeviceControl(d@),
            Action::OperatingSystemCommand(o) => ActionView::OperatingSystemCommand(o@),
            Action::CSI(c) => ActionView::CSI(c@),
            Action::Esc(e) => ActionView::Esc(e),
        }
    }
}

} // verus!
