use escpos_lib::cmds::{EscPosCmd, UnderlineMode};
use escpos_lib::format::{FmtStr, FormattedStr};
use escpos_lib::print_mode::PrintMode;
use escpos_lib::printer::{test_page, write_and_cut};

const ESC: u8 = 0x1b;
const GS: u8 = 0x1d;

fn cat(parts: &[&[u8]]) -> Vec<u8> {
    parts.concat()
}

fn code(cmd: EscPosCmd) -> Vec<u8> {
    cmd.encode().expect("the command has an encoding")
}

#[test]
fn plain_text_is_wrapped_in_print_mode_only() {
    let mode_off = code(EscPosCmd::SelectPrintMode(PrintMode::empty()));
    assert_eq!(FormattedStr::new("x").render(), cat(&[&mode_off, b"x", &mode_off]));
    assert_eq!(FormattedStr::new("x").render(), vec![ESC, b'!', 0, b'x', ESC, b'!', 0]);
}

#[test]
fn default_is_the_empty_plain_text() {
    let d: FormattedStr<&str> = FormattedStr::default();
    assert_eq!(*d.text(), "");
    assert_eq!(d.print_mode(), PrintMode::empty());
    assert_eq!(d.underline_mode(), UnderlineMode::Off);
    assert!(!d.is_reversed());
    assert_eq!(d.render(), vec![ESC, b'!', 0, ESC, b'!', 0]);
}

#[test]
fn emph_twice_is_emph_once() {
    assert_eq!("a".emph().emph().print_mode().bits(), "a".emph().print_mode().bits());
    assert_eq!("a".emph().print_mode().bits(), 0x08);
    assert_eq!("a".emph().emph().render(), "a".emph().render());
}

#[test]
fn every_attribute_is_idempotent() {
    assert_eq!("a".higher().higher().render(), "a".higher().render());
    assert_eq!("a".wider().wider().render(), "a".wider().render());
    assert_eq!("a".small().small().render(), "a".small().render());
    assert_eq!("a".reverse().reverse().render(), "a".reverse().render());
    assert_eq!("a".underline1().underline1().render(), "a".underline1().render());
    assert_eq!("a".underline2().underline2().render(), "a".underline2().render());
}

#[test]
fn emph_and_wider_commute() {
    assert_eq!("text".emph().wider().render(), "text".wider().emph().render());
    assert_eq!(
        "text".emph().wider().render(),
        cat(&[&[ESC, b'!', 0x28], b"text", &[ESC, b'!', 0x00]])
    );
}

#[test]
fn attributes_of_different_kinds_commute() {
    assert_eq!("t".reverse().small().render(), "t".small().reverse().render());
    assert_eq!("t".underline1().higher().render(), "t".higher().underline1().render());
    assert_eq!("t".underline2().reverse().render(), "t".reverse().underline2().render());
}

#[test]
fn second_underline_replaces_the_first() {
    let both = "text".underline1().underline2();
    assert_eq!(both.underline_mode(), UnderlineMode::TwoDot);
    let bytes = both.render();
    assert_eq!(bytes, "text".underline2().render());
    assert_eq!(
        bytes,
        cat(&[&[ESC, b'-', 2], &[ESC, b'!', 0], b"text", &[ESC, b'!', 0], &[ESC, b'-', 0]])
    );
    let one_dot = [ESC, b'-', 1];
    assert!(!bytes.windows(3).any(|w| w == one_dot));
    assert_eq!(
        "text".underline2().underline1().render(),
        cat(&[&[ESC, b'-', 1], &[ESC, b'!', 0], b"text", &[ESC, b'!', 0], &[ESC, b'-', 0]])
    );
}

#[test]
fn reversed_test_end_to_end() {
    assert_eq!(
        "TEST".reverse().render(),
        cat(&[&[GS, b'B', b'1'], &[ESC, b'!', 0x00], b"TEST", &[ESC, b'!', 0x00], &[GS, b'B', b'0']])
    );
}

#[test]
fn leaving_mirrors_entering() {
    let bytes = "abc".small().underline1().reverse().emph().render();
    assert_eq!(
        bytes,
        cat(&[
            &[GS, b'B', b'1'],
            &[ESC, b'-', 1],
            &[ESC, b'!', 0x09],
            b"abc",
            &[ESC, b'!', 0x00],
            &[ESC, b'-', 0],
            &[GS, b'B', b'0'],
        ])
    );
}

#[test]
fn each_attribute_alone() {
    assert_eq!("t".emph().render(), cat(&[&[ESC, b'!', 0x08], b"t", &[ESC, b'!', 0]]));
    assert_eq!("t".higher().render(), cat(&[&[ESC, b'!', 0x10], b"t", &[ESC, b'!', 0]]));
    assert_eq!("t".wider().render(), cat(&[&[ESC, b'!', 0x20], b"t", &[ESC, b'!', 0]]));
    assert_eq!("t".small().render(), cat(&[&[ESC, b'!', 0x01], b"t", &[ESC, b'!', 0]]));
    assert_eq!(
        "t".underline1().render(),
        cat(&[&[ESC, b'-', 1], &[ESC, b'!', 0], b"t", &[ESC, b'!', 0], &[ESC, b'-', 0]])
    );
    assert_eq!(
        "t".underline2().render(),
        cat(&[&[ESC, b'-', 2], &[ESC, b'!', 0], b"t", &[ESC, b'!', 0], &[ESC, b'-', 0]])
    );
}

#[test]
fn text_bytes_pass_through_unchanged() {
    assert_eq!(
        "Grüße €".emph().render(),
        cat(&[&[ESC, b'!', 0x08], "Grüße €".as_bytes(), &[ESC, b'!', 0]])
    );
    assert_eq!("".emph().render(), vec![ESC, b'!', 0x08, ESC, b'!', 0]);
}

#[test]
fn getters_report_what_was_applied() {
    let f = "name".higher().underline2().reverse();
    assert_eq!(*f.text(), "name");
    assert_eq!(f.print_mode().bits(), 0x10);
    assert_eq!(f.underline_mode(), UnderlineMode::TwoDot);
    assert!(f.is_reversed());
    let owned = FormattedStr::new(String::from("owned")).wider().small();
    assert_eq!(owned.text(), "owned");
    assert_eq!(owned.print_mode().bits(), 0x21);
}

#[test]
fn write_and_cut_feeds_five_lines_and_cuts_fully() {
    assert_eq!(write_and_cut("Hi\n"), cat(&[b"Hi\n", &[ESC, b'd', 5], &[GS, b'V', b'0']]));
    assert_eq!(write_and_cut(""), cat(&[&[ESC, b'd', 5], &[GS, b'V', b'0']]));
}

#[test]
fn test_page_lists_the_samples_then_the_heading() {
    let page = test_page();
    let first = cat(&[b" - ", &[ESC, b'!', 0x08], b"Emphasized", &[ESC, b'!', 0], b"\n"]);
    assert_eq!(&page[..first.len()], &first[..]);
    let tail = cat(&[
        b" - ",
        &[GS, b'B', b'1'],
        &[ESC, b'!', 0x01],
        b"Reversed Small",
        &[ESC, b'!', 0],
        &[GS, b'B', b'0'],
        b"\n",
        &[GS, b'B', b'1'],
        &[ESC, b'!', 0],
        b" TEST ",
        &[ESC, b'!', 0],
        &[GS, b'B', b'0'],
        b"\nDies ist ein Test\n",
        &[ESC, b'd', 5],
        &[GS, b'V', b'0'],
    ]);
    assert_eq!(&page[page.len() - tail.len()..], &tail[..]);
    assert_eq!(page.iter().filter(|b| **b == b'\n').count(), 23);
    let dash = b" - ";
    assert_eq!(page.windows(3).filter(|w| w == dash).count(), 21);
}
