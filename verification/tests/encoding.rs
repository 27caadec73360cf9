use escpos_lib::cmds::{
    CharCodeTable, CutMode, EncodeError, EscPosCmd, Font, Justification, PaperSensorMode,
    UnderlineMode,
};
use escpos_lib::print_mode::PrintMode;

const ESC: u8 = 0x1b;
const GS: u8 = 0x1d;

fn bytes(cmd: EscPosCmd) -> Vec<u8> {
    cmd.encode().expect("the command has an encoding")
}

#[test]
fn initialize_printer_is_esc_at() {
    assert_eq!(bytes(EscPosCmd::InitializePrinter), vec![ESC, b'@']);
}

#[test]
fn line_feed_is_one_byte() {
    assert_eq!(bytes(EscPosCmd::PrintAndLineFeed), vec![0x0a]);
}

#[test]
fn print_mode_sends_the_flags_in_one_byte() {
    assert_eq!(bytes(EscPosCmd::SelectPrintMode(PrintMode::empty())), vec![ESC, b'!', 0x00]);
    assert_eq!(bytes(EscPosCmd::SelectPrintMode(PrintMode::font_b())), vec![ESC, b'!', 0x01]);
    assert_eq!(bytes(EscPosCmd::SelectPrintMode(PrintMode::emphasized())), vec![ESC, b'!', 0x08]);
    assert_eq!(
        bytes(EscPosCmd::SelectPrintMode(PrintMode::double_height())),
        vec![ESC, b'!', 0x10]
    );
    assert_eq!(
        bytes(EscPosCmd::SelectPrintMode(PrintMode::double_width())),
        vec![ESC, b'!', 0x20]
    );
    assert_eq!(bytes(EscPosCmd::SelectPrintMode(PrintMode::underline())), vec![ESC, b'!', 0x80]);
    let all = PrintMode::font_b()
        .union(PrintMode::emphasized())
        .union(PrintMode::double_height())
        .union(PrintMode::double_width())
        .union(PrintMode::underline());
    assert_eq!(bytes(EscPosCmd::SelectPrintMode(all)), vec![ESC, b'!', 0xb9]);
}

#[test]
fn underline_mode_sends_the_thickness_as_a_number() {
    assert_eq!(bytes(EscPosCmd::SelectUnderlineMode(UnderlineMode::Off)), vec![ESC, b'-', 0]);
    assert_eq!(bytes(EscPosCmd::SelectUnderlineMode(UnderlineMode::OneDot)), vec![ESC, b'-', 1]);
    assert_eq!(bytes(EscPosCmd::SelectUnderlineMode(UnderlineMode::TwoDot)), vec![ESC, b'-', 2]);
}

#[test]
fn switches_send_an_ascii_digit() {
    assert_eq!(bytes(EscPosCmd::SelectEmphasized(false)), vec![ESC, b'E', b'0']);
    assert_eq!(bytes(EscPosCmd::SelectEmphasized(true)), vec![ESC, b'E', b'1']);
    assert_eq!(bytes(EscPosCmd::SelectDoubleStrike(false)), vec![ESC, b'G', b'0']);
    assert_eq!(bytes(EscPosCmd::SelectDoubleStrike(true)), vec![ESC, b'G', b'1']);
    assert_eq!(bytes(EscPosCmd::SelectPrintColor(false)), vec![ESC, b'r', b'0']);
    assert_eq!(bytes(EscPosCmd::SelectPrintColor(true)), vec![ESC, b'r', b'1']);
    assert_eq!(bytes(EscPosCmd::SelectReversePrinting(false)), vec![GS, b'B', b'0']);
    assert_eq!(bytes(EscPosCmd::SelectReversePrinting(true)), vec![GS, b'B', b'1']);
}

#[test]
fn fonts_are_numbered_from_a() {
    assert_eq!(bytes(EscPosCmd::SelectFont(Font::A)), vec![ESC, b'M', b'0']);
    assert_eq!(bytes(EscPosCmd::SelectFont(Font::B)), vec![ESC, b'M', b'1']);
    assert_eq!(bytes(EscPosCmd::SelectFont(Font::C)), vec![ESC, b'M', b'2']);
}

#[test]
fn justification_is_numbered_from_left() {
    assert_eq!(bytes(EscPosCmd::SelectJustification(Justification::Left)), vec![ESC, b'a', b'0']);
    assert_eq!(
        bytes(EscPosCmd::SelectJustification(Justification::Center)),
        vec![ESC, b'a', b'1']
    );
    assert_eq!(bytes(EscPosCmd::SelectJustification(Justification::Right)), vec![ESC, b'a', b'2']);
}

#[test]
fn feed_counts_are_sent_as_one_byte() {
    for lines in [0u8, 1, 5, 128, 255] {
        assert_eq!(bytes(EscPosCmd::PrintAndFeedLines(lines)), vec![ESC, b'd', lines]);
        assert_eq!(bytes(EscPosCmd::PrintAndReverseFeedLines(lines)), vec![ESC, b'e', lines]);
    }
}

#[test]
fn bar_code_height_is_sent_as_one_byte() {
    for height in [0u8, 1, 48, 162, 255] {
        assert_eq!(bytes(EscPosCmd::SelectBarCodeHeight(height)), vec![GS, b'h', height]);
    }
}

#[test]
fn char_code_tables_have_their_documented_numbers() {
    let table = [
        (CharCodeTable::PC437, 0u8),
        (CharCodeTable::Katakana, 1),
        (CharCodeTable::PC850, 2),
        (CharCodeTable::PC860, 3),
        (CharCodeTable::PC863, 4),
        (CharCodeTable::PC865, 5),
        (CharCodeTable::WPC1252, 16),
        (CharCodeTable::PC866, 17),
        (CharCodeTable::PC852, 18),
        (CharCodeTable::PC858, 19),
        (CharCodeTable::ThaiCharCode42, 20),
        (CharCodeTable::ThaiCharCode11, 21),
        (CharCodeTable::ThaiCharCode13, 22),
        (CharCodeTable::ThaiCharCode14, 23),
        (CharCodeTable::ThaiCharCode16, 24),
        (CharCodeTable::ThaiCharCode17, 25),
        (CharCodeTable::ThaiCharCode18, 26),
        (CharCodeTable::UserDefined1, 254),
        (CharCodeTable::UserDefined2, 255),
    ];
    for (name, code) in table {
        assert_eq!(name.code(), code);
        assert_eq!(bytes(EscPosCmd::SelectCharCodeTable(name)), vec![ESC, b't', code]);
    }
}

#[test]
fn full_cut_is_zero_and_partial_cut_is_one() {
    assert_eq!(bytes(EscPosCmd::CutPaper(CutMode::Full)), vec![GS, b'V', b'0']);
    assert_eq!(bytes(EscPosCmd::CutPaper(CutMode::Partial)), vec![GS, b'V', b'1']);
}

#[test]
fn text_is_sent_unchanged() {
    assert_eq!(bytes(EscPosCmd::Text("")), Vec::<u8>::new());
    assert_eq!(bytes(EscPosCmd::Text("Bon 42\n")), b"Bon 42\n".to_vec());
    assert_eq!(bytes(EscPosCmd::Text("\x1b@")), vec![ESC, b'@']);
    assert_eq!(bytes(EscPosCmd::Text("Grüße")), "Grüße".as_bytes().to_vec());
    assert_eq!(bytes(EscPosCmd::Text("é")), vec![0xc3, 0xa9]);
}

#[test]
fn reserved_commands_are_unsupported() {
    assert_eq!(
        EscPosCmd::SelectPaperSensorMode(PaperSensorMode::new(0)).encode(),
        Err(EncodeError::Unsupported)
    );
    assert_eq!(EscPosCmd::GeneratePulse(true).encode(), Err(EncodeError::Unsupported));
    assert_eq!(EscPosCmd::GeneratePulse(false).encode(), Err(EncodeError::Unsupported));
    assert_eq!(EscPosCmd::PrintBarCode(7).encode(), Err(EncodeError::Unsupported));
}

#[test]
fn encode_into_appends_and_leaves_the_buffer_alone_on_error() {
    let mut out = vec![1u8, 2, 3];
    assert_eq!(EscPosCmd::PrintAndLineFeed.encode_into(&mut out), Ok(()));
    assert_eq!(EscPosCmd::CutPaper(CutMode::Full).encode_into(&mut out), Ok(()));
    assert_eq!(out, vec![1, 2, 3, 0x0a, GS, b'V', b'0']);
    assert_eq!(EscPosCmd::PrintBarCode(0).encode_into(&mut out), Err(EncodeError::Unsupported));
    assert_eq!(out, vec![1, 2, 3, 0x0a, GS, b'V', b'0']);
}

#[test]
fn print_mode_keeps_only_the_named_flags() {
    assert_eq!(PrintMode::from_bits(0x00), Some(PrintMode::empty()));
    assert_eq!(PrintMode::from_bits(0x28).map(|m| m.bits()), Some(0x28));
    assert_eq!(PrintMode::from_bits(0xb9).map(|m| m.bits()), Some(0xb9));
    assert_eq!(PrintMode::from_bits(0x02), None);
    assert_eq!(PrintMode::from_bits(0x40), None);
    assert_eq!(PrintMode::from_bits(0xff), None);
    assert_eq!(PrintMode::from_bits_truncate(0xff).bits(), 0xb9);
    assert_eq!(PrintMode::from_bits_truncate(0x46).bits(), 0x00);
    assert_eq!(PrintMode::default(), PrintMode::empty());
    assert!(PrintMode::empty().is_empty());
    assert!(!PrintMode::font_b().is_empty());
}

#[test]
fn print_mode_union_is_bitwise_or() {
    let both = PrintMode::emphasized().union(PrintMode::double_width());
    assert_eq!(both.bits(), 0x28);
    assert!(both.contains(PrintMode::emphasized()));
    assert!(both.contains(PrintMode::double_width()));
    assert!(!both.contains(PrintMode::font_b()));
    assert!(both.contains(PrintMode::empty()));
    assert_eq!(both.union(PrintMode::emphasized()), both);
    assert_eq!(
        PrintMode::double_width().union(PrintMode::emphasized()),
        PrintMode::emphasized().union(PrintMode::double_width())
    );
}
