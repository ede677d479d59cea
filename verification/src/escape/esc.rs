//! Escape sequences: an optional intermediate byte and a final byte.

use vstd::prelude::*;

verus! {

/// The escape sequences with a name.
#[derive(Clone, Copy, Debug, PartialEq, Eq, Structural)]
pub enum EscCode {
    /// RIS
    FullReset,
    /// IND
    Index,
    /// NEL
    NextLine,
    CursorPositionLowerLeft,
    /// HTS
    HorizontalTabSet,
    /// RI
    ReverseIndex,
    SingleShiftG2,
    SingleShiftG3,
    StartOfGuardedArea,
    EndOfGuardedArea,
    StartOfString,
    ReturnTerminalId,
    /// ST
    StringTerminator,
    PrivacyMessage,
    ApplicationProgramCommand,
    /// DECSC
    DecSaveCursorPosition,
    /// DECRC
    DecRestoreCursorPosition,
    /// DECKPAM
    DecApplicationKeyPad,
    /// DECKPNM
    DecNormalKeyPad,
    /// The DEC line drawing character set becomes G0.
    DecLineDrawing,
    /// The ASCII character set becomes G0.
    AsciiCharacterSet,
}

/// An escape sequence.
#[derive(Clone, Copy, Debug, PartialEq, Eq, Structural)]
pub enum Esc {
    Code(EscCode),
    Unspecified { intermediate: Option<u8>, control: u8 },
}

impl Esc {
    /// The named escape sequence that an intermediate and a final byte stand for.
    pub open spec fn code_of(intermediate: Option<u8>, control: u8) -> Option<EscCode> {
        match intermediate {
            None => if control == 0x63 {
                Some(EscCode::FullReset)
            } else if control == 0x44 {
                Some(EscCode::Index)
            } else if control == 0x45 {
                Some(EscCode::NextLine)
            } else if control == 0x46 {
                Some(EscCode::CursorPositionLowerLeft)
            } else if control == 0x48 {
                Some(EscCode::HorizontalTabSet)
            } else if control == 0x4d {
                Some(EscCode::ReverseIndex)
            } else if control == 0x4e {
                Some(EscCode::SingleShiftG2)
            } else if control == 0x4f {
                Some(EscCode::SingleShiftG3)
            } else if control == 0x56 {
                Some(EscCode::StartOfGuardedArea)
            } else if control == 0x57 {
                Some(EscCode::EndOfGuardedArea)
            } else if control == 0x58 {
                Some(EscCode::StartOfString)
            } else if control == 0x5a {
                Some(EscCode::ReturnTerminalId)
            } else if control == 0x5c {
                Some(EscCode::StringTerminator)
            } else if control == 0x5e {
                Some(EscCode::PrivacyMessage)
            } else if control == 0x5f {
                Some(EscCode::ApplicationProgramCommand)
            } else if control == 0x37 {
                Some(EscCode::DecSaveCursorPosition)
            } else if control == 0x38 {
                Some(EscCode::DecRestoreCursorPosition)
            } else if control == 0x3d {
                Some(EscCode::DecApplicationKeyPad)
            } else if control == 0x3e {
                Some(EscCode::DecNormalKeyPad)
            } else {
                None
            },
            Some(i) => if i == 0x28 && control == 0x30 {
                Some(EscCode::DecLineDrawing)
            } else if i == 0x28 && control == 0x42 {
                Some(EscCode::AsciiCharacterSet)
            } else {
                None
            },
        }
    }

    /// The escape sequence that an intermediate and a final byte stand for: a named one, or
    /// the two bytes as they came.
    pub open spec fn decoded(intermediate: Option<u8>, control: u8) -> Esc {
        match Esc::code_of(intermediate, control) {
            Some(code) => Esc::Code(code),
            None => Esc::Unspecified { intermediate, control },
        }
    }

    /// Decodes an escape sequence from its intermediate byte, if it has one, and its final
    /// byte.
    pub fn parse(intermediate: Option<u8>, control: u8) -> (esc: Esc)
        ensures
            esc == Esc::decoded(intermediate, control),
    {
        let code = match intermediate {
            None => match control {
                0x63 => Some(EscCode::FullReset),
                0x44 => Some(EscCode::Index),
                0x45 => Some(EscCode::NextLine),
                0x46 => Some(EscCode::CursorPositionLowerLeft),
                0x48 => Some(EscCode::HorizontalTabSet),
                0x4d => Some(EscCode::ReverseIndex),
                0x4e => Some(EscCode::SingleShiftG2),
                0x4f => Some(EscCode::SingleShiftG3),
                0x56 => Some(EscCode::StartOfGuardedArea),
                0x57 => Some(EscCode::EndOfGuardedArea),
                0x58 => Some(EscCode::StartOfString),
                0x5a => Some(EscCode::ReturnTerminalId),
                0x5c => Some(EscCode::StringTerminator),
                0x5e => Some(EscCode::PrivacyMessage),
                0x5f => Some(EscCode::ApplicationProgramCommand),
                0x37 => Some(EscCode::DecSaveCursorPosition),
                0x38 => Some(EscCode::DecRestoreCursorPosition),
                0x3d => Some(EscCode::DecApplicationKeyPad),
                0x3e => Some(EscCode::DecNormalKeyPad),
                _ => None,
            },
            Some(0x28) => match control {
                0x30 => Some(EscCode::DecLineDrawing),
                0x42 => Some(EscCode::AsciiCharacterSet),
                _ => None,
            },
            Some(_) => None,
        };
        match code {
            Some(code) => Esc::Code(code),
            None => Esc::Unspecified { intermediate, control },
        }
    }
}

} // verus!
