//! The printer's commands and their wire encoding.

use vstd::prelude::*;
use vstd::string::StringSliceAdditionalSpecFns;
use crate::chars::{DIGIT_0, DIGIT_1, DIGIT_2, ESC, GS, INITIALIZE_PRINTER, LF};
pub use crate::print_mode::PrintMode;

verus! {

/// One operation of the printer.
#[derive(Clone, Copy, Debug)]
pub enum EscPosCmd<'s> {
    /// Reset the printer to its power-on defaults.
    InitializePrinter,
    /// Print the line buffer and feed one line.
    PrintAndLineFeed,
    /// Select font, emphasis and character size at once.
    SelectPrintMode(PrintMode),
    /// Select the underline thickness.
    SelectUnderlineMode(UnderlineMode),
    /// Turn emphasized print on or off.
    SelectEmphasized(bool),
    /// Turn double-strike print on or off.
    SelectDoubleStrike(bool),
    /// Select the character font.
    SelectFont(Font),
    /// Select the horizontal alignment.
    SelectJustification(Justification),
    /// Reserved: the printer's paper sensors. Has no encoding.
    SelectPaperSensorMode(PaperSensorMode),
    /// Print the line buffer and feed this many lines.
    PrintAndFeedLines(u8),
    /// Print the line buffer and feed this many lines backwards.
    PrintAndReverseFeedLines(u8),
    /// Reserved: the drawer kick-out pulse. Has no encoding.
    GeneratePulse(bool),
    /// Select the second print color, or go back to the first.
    SelectPrintColor(bool),
    /// Select the table by which bytes above ASCII are read.
    SelectCharCodeTable(CharCodeTable),
    /// Turn white-on-black print on or off.
    SelectReversePrinting(bool),
    /// Cut the paper.
    CutPaper(CutMode),
    /// Set the height of the bar codes that follow.
    SelectBarCodeHeight(u8),
    /// Reserved: a bar code. Has no encoding.
    PrintBarCode(u8),
    /// Text to print, sent as it is.
    Text(&'s str),
}

/// How the paper is cut.
#[derive(Clone, Copy, Debug, PartialEq, Eq, Structural)]
pub enum CutMode {
    Partial,
    Full,
}

/// The character code tables of the printer.
#[derive(Clone, Copy, Debug, PartialEq, Eq, Structural)]
pub enum CharCodeTable {
    /// USA, standard Europe.
    PC437,
    Katakana,
    /// Multilingual.
    PC850,
    /// Portuguese.
    PC860,
    /// Canadian-French.
    PC863,
    /// Nordic.
    PC865,
    WPC1252,
    /// Cyrillic #2.
    PC866,
    /// Latin 2.
    PC852,
    /// Euro.
    PC858,
    ThaiCharCode42,
    ThaiCharCode11,
    ThaiCharCode13,
    ThaiCharCode14,
    ThaiCharCode16,
    ThaiCharCode17,
    ThaiCharCode18,
    UserDefined1,
    UserDefined2,
}

/// Setting of the paper sensors. No command of this crate sends it.
#[derive(Clone, Copy, Debug, PartialEq, Eq, Structural)]
pub struct PaperSensorMode {
    setting: u8,
}

/// Horizontal alignment of a line.
#[derive(Clone, Copy, Debug, PartialEq, Eq, Structural)]
pub enum Justification {
    Left,
    Center,
    Right,
}

/// The character fonts.
#[derive(Clone, Copy, Debug, PartialEq, Eq, Structural)]
pub enum Font {
    A,
    B,
    C,
}

/// Thickness of the underline.
#[derive(Clone, Copy, Debug, PartialEq, Eq, Structural)]
pub enum UnderlineMode {
    Off,
    OneDot,
    TwoDot,
}

/// Why a command could not be encoded.
#[derive(Clone, Copy, Debug, PartialEq, Eq, Structural)]
pub enum EncodeError {
    /// The command is reserved and has no encoding.
    Unsupported,
}

/// The ASCII digit that stands for a switch: `1` for on, `0` for off.
pub open spec fn spec_switch_digit(on: bool) -> u8 {
    if on {
        DIGIT_1
    } else {
        DIGIT_0
    }
}

/// The ASCII digit that stands for a switch: `1` for on, `0` for off.
#[verifier::when_used_as_spec(spec_switch_digit)]
pub fn switch_digit(on: bool) -> (r: u8)
    ensures
        r == spec_switch_digit(on),
{
    if on {
        DIGIT_1
    } else {
        DIGIT_0
    }
}

impl CutMode {
    /// The parameter of the cut command: the digit `0` cuts fully, the digit
    /// `1` partially.
    pub open spec fn spec_code(self) -> u8 {
        match self {
            CutMode::Full => DIGIT_0,
            CutMode::Partial => DIGIT_1,
        }
    }

    /// The parameter of the cut command.
    #[verifier::when_used_as_spec(spec_code)]
    pub fn code(self) -> (r: u8)
        ensures
            r == self.spec_code(),
    {
        match self {
            CutMode::Full => DIGIT_0,
            CutMode::Partial => DIGIT_1,
        }
    }
}

impl UnderlineMode {
    /// The parameter of the underline command: the thickness in dots, as a
    /// number.
    pub open spec fn spec_code(self) -> u8 {
        match self {
            UnderlineMode::Off => 0,
            UnderlineMode::OneDot => 1,
            UnderlineMode::TwoDot => 2,
        }
    }

    /// The parameter of the underline command.
    #[verifier::when_used_as_spec(spec_code)]
    pub fn code(self) -> (r: u8)
        ensures
            r == self.spec_code(),
    {
        match self {
            UnderlineMode::Off => 0,
            UnderlineMode::OneDot => 1,
            UnderlineMode::TwoDot => 2,
        }
    }
}

impl Font {
    /// The parameter of the font command: an ASCII digit.
    pub open spec fn spec_code(self) -> u8 {
        match self {
            Font::A => DIGIT_0,
            Font::B => DIGIT_1,
            Font::C => DIGIT_2,
        }
    }

    /// The parameter of the font command.
    #[verifier::when_used_as_spec(spec_code)]
    pub fn code(self) -> (r: u8)
        ensures
            r == self.spec_code(),
    {
        match self {
            Font::A => DIGIT_0,
            Font::B => DIGIT_1,
            Font::C => DIGIT_2,
        }
    }
}

impl Justification {
    /// The parameter of the justification command: an ASCII digit.
    pub open spec fn spec_code(self) -> u8 {
        match self {
            Justification::Left => DIGIT_0,
            Justification::Center => DIGIT_1,
            Justification::Right => DIGIT_2,
        }
    }

    /// The parameter of the justification command.
    #[verifier::when_used_as_spec(spec_code)]
    pub fn code(self) -> (r: u8)
        ensures
            r == self.spec_code(),
    {
        match self {
            Justification::Left => DIGIT_0,
            Justification::Center => DIGIT_1,
            Justification::Right => DIGIT_2,
        }
    }
}

impl CharCodeTable {
    /// The number by which the printer knows the table.
    pub open spec fn spec_code(self) -> u8 {
        match self {
            CharCodeTable::PC437 => 0,
            CharCodeTable::Katakana => 1,
            CharCodeTable::PC850 => 2,
            CharCodeTable::PC860 => 3,
            CharCodeTable::PC863 => 4,
            CharCodeTable::PC865 => 5,
            CharCodeTable::WPC1252 => 16,
            CharCodeTable::PC866 => 17,
            CharCodeTable::PC852 => 18,
            CharCodeTable::PC858 => 19,
            CharCodeTable::ThaiCharCode42 => 20,
            CharCodeTable::ThaiCharCode11 => 21,
            CharCodeTable::ThaiCharCode13 => 22,
            CharCodeTable::ThaiCharCode14 => 23,
            CharCodeTable::ThaiCharCode16 => 24,
            CharCodeTable::ThaiCharCode17 => 25,
            CharCodeTable::ThaiCharCode18 => 26,
            CharCodeTable::UserDefined1 => 254,
            CharCodeTable::UserDefined2 => 255,
        }
    }

    /// The number by which the printer knows the table.
    #[verifier::when_used_as_spec(spec_code)]
    pub fn code(self) -> (r: u8)
        ensures
            r == self.spec_code(),
    {
        match self {
            CharCodeTable::PC437 => 0,
            CharCodeTable::Katakana => 1,
            CharCodeTable::PC850 => 2,
            CharCodeTable::PC860 => 3,
            CharCodeTable::PC863 => 4,
            CharCodeTable::PC865 => 5,
            CharCodeTable::WPC1252 => 16,
            CharCodeTable::PC866 => 17,
            CharCodeTable::PC852 => 18,
            CharCodeTable::PC858 => 19,
            CharCodeTable::ThaiCharCode42 => 20,
            CharCodeTable::ThaiCharCode11 => 21,
            CharCodeTable::ThaiCharCode13 => 22,
            CharCodeTable::ThaiCharCode14 => 23,
            CharCodeTable::ThaiCharCode16 => 24,
            CharCodeTable::ThaiCharCode17 => 25,
            CharCodeTable::ThaiCharCode18 => 26,
            CharCodeTable::UserDefined1 => 254,
            CharCodeTable::UserDefined2 => 255,
        }
    }
}

impl PaperSensorMode {
    /// A sensor setting with the given raw value.
    pub fn new(setting: u8) -> (r: PaperSensorMode)
        ensures
            r.setting() == setting,
    {
        PaperSensorMode { setting }
    }

    /// The raw value.
    pub closed spec fn setting(self) -> u8 {
        self.setting
    }
}

impl<'s> EscPosCmd<'s> {
    /// Whether the command has an encoding. The three reserved commands have
    /// none.
    pub open spec fn is_supported(self) -> bool {
        !(self is SelectPaperSensorMode || self is GeneratePulse || self is PrintBarCode)
    }

    /// The bytes that the printer takes for the command. Every command but
    /// plain text and the line feed is an introducer, a letter or sign, and
    /// one parameter byte. A reserved command sends nothing.
    pub open spec fn bytes(self) -> Seq<u8> {
        match self {
            EscPosCmd::InitializePrinter => seq![ESC, INITIALIZE_PRINTER],
            EscPosCmd::PrintAndLineFeed => seq![LF],
            // ESC !
            EscPosCmd::SelectPrintMode(mode) => seq![ESC, 0x21, mode@],
            // ESC -
            EscPosCmd::SelectUnderlineMode(level) => seq![ESC, 0x2d, level.spec_code()],
            // ESC E
            EscPosCmd::SelectEmphasized(on) => seq![ESC, 0x45, spec_switch_digit(on)],
            // ESC G
            EscPosCmd::SelectDoubleStrike(on) => seq![ESC, 0x47, spec_switch_digit(on)],
            // ESC M
            EscPosCmd::SelectFont(font) => seq![ESC, 0x4d, font.spec_code()],
            // ESC a
            EscPosCmd::SelectJustification(side) => seq![ESC, 0x61, side.spec_code()],
            EscPosCmd::SelectPaperSensorMode(_) => Seq::empty(),
            // ESC d
            EscPosCmd::PrintAndFeedLines(lines) => seq![ESC, 0x64, lines],
            // ESC e
            EscPosCmd::PrintAndReverseFeedLines(lines) => seq![ESC, 0x65, lines],
            EscPosCmd::GeneratePulse(_) => Seq::empty(),
            // ESC r
            EscPosCmd::SelectPrintColor(second) => seq![ESC, 0x72, spec_switch_digit(second)],
            // ESC t
            EscPosCmd::SelectCharCodeTable(table) => seq![ESC, 0x74, table.spec_code()],
            // GS B
            EscPosCmd::SelectReversePrinting(on) => seq![GS, 0x42, spec_switch_digit(on)],
            // GS V
            EscPosCmd::CutPaper(mode) => seq![GS, 0x56, mode.spec_code()],
            // GS h
            EscPosCmd::SelectBarCodeHeight(height) => seq![GS, 0x68, height],
            EscPosCmd::PrintBarCode(_) => Seq::empty(),
            EscPosCmd::Text(text) => text.spec_bytes(),
        }
    }

    /// Every command but text has a fixed shape, whatever its parameter: the
    /// reset is two bytes, the line feed is one, and each of the others is an
    /// introducer, `ESC` or `GS`, then a sign, then one parameter byte.
    pub proof fn lemma_fixed_shape(self)
        requires
            self.is_supported(),
            !(self is Text),
        ensures
            self is InitializePrinter ==> self.bytes().len() == 2,
            self is PrintAndLineFeed ==> self.bytes().len() == 1,
            !(self is InitializePrinter || self is PrintAndLineFeed) ==> self.bytes().len() == 3
                && (self.bytes()[0] == ESC || self.bytes()[0] == GS),
    {
    }

    /// Appends the command's bytes to `out`.
    pub fn encode_into(&self, out: &mut Vec<u8>) -> (r: Result<(), EncodeError>)
        ensures
            r is Ok <==> self.is_supported(),
            r is Ok ==> final(out)@ == old(out)@ + self.bytes(),
            r is Err ==> final(out)@ == old(out)@ && r == Err::<(), EncodeError>(
                EncodeError::Unsupported,
            ),
    {
        let (introducer, sign, parameter): (u8, u8, u8) = match self {
            EscPosCmd::InitializePrinter => {
                out.push(ESC);
                out.push(INITIALIZE_PRINTER);
                assert(out@ == old(out)@ + seq![ESC, INITIALIZE_PRINTER]);
                return Ok(());
            },
            EscPosCmd::PrintAndLineFeed => {
                out.push(LF);
                assert(out@ == old(out)@ + seq![LF]);
                return Ok(());
            },
            EscPosCmd::Text(text) => {
                out.extend_from_slice(text.as_bytes());
                return Ok(());
            },
            EscPosCmd::SelectPaperSensorMode(_)
            | EscPosCmd::GeneratePulse(_)
            | EscPosCmd::PrintBarCode(_) => {
                return Err(EncodeError::Unsupported);
            },
            EscPosCmd::SelectPrintMode(mode) => (ESC, 0x21, mode.bits()),
            EscPosCmd::SelectUnderlineMode(level) => (ESC, 0x2d, level.code()),
            EscPosCmd::SelectEmphasized(on) => (ESC, 0x45, switch_digit(*on)),
            EscPosCmd::SelectDoubleStrike(on) => (ESC, 0x47, switch_digit(*on)),
            EscPosCmd::SelectFont(font) => (ESC, 0x4d, font.code()),
            EscPosCmd::SelectJustification(side) => (ESC, 0x61, side.code()),
            EscPosCmd::PrintAndFeedLines(lines) => (ESC, 0x64, *lines),
            EscPosCmd::PrintAndReverseFeedLines(lines) => (ESC, 0x65, *lines),
            EscPosCmd::SelectPrintColor(second) => (ESC, 0x72, switch_digit(*second)),
            EscPosCmd::SelectCharCodeTable(table) => (ESC, 0x74, table.code()),
            EscPosCmd::SelectReversePrinting(on) => (GS, 0x42, switch_digit(*on)),
            EscPosCmd::CutPaper(mode) => (GS, 0x56, mode.code()),
            EscPosCmd::SelectBarCodeHeight(height) => (GS, 0x68, *height),
        };
        out.push(introducer);
        out.push(sign);
        out.push(parameter);
        assert(out@ == old(out)@ + seq![introducer, sign, parameter]);
        Ok(())
    }

    /// The command's bytes, or the error for a reserved command.
    pub fn encode(&self) -> (r: Result<Vec<u8>, EncodeError>)
        ensures
            r is Ok <==> self.is_supported(),
            r matches Ok(bytes) ==> bytes@ == self.bytes(),
            r matches Err(e) ==> e == EncodeError::Unsupported,
    {
        let mut out: Vec<u8> = Vec::new();
        match self.encode_into(&mut out) {
            Ok(()) => {
                assert(out@ == self.bytes());
                Ok(out)
            },
            Err(e) => Err(e),
        }
    }
}

} // verus!
