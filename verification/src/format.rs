//! Text with print attributes, and the byte stream that prints it.
//!
//! A formatted string is rendered on its own: the bytes depend on nothing but
//! the value. The printer, however, keeps what was selected until it is told
//! otherwise, so every rendering ends by taking back what it selected at its
//! start. This only works if the bytes of one rendering reach the printer as
//! one run. Where several renderings are sent over one line at the same time,
//! whoever writes to the line has to keep them apart: the commands of two
//! renderings must never interleave.

use vstd::prelude::*;
use vstd::string::StringSliceAdditionalSpecFns;
use crate::chars::{DIGIT_0, DIGIT_1, ESC, GS};
use crate::cmds::{EscPosCmd, PrintMode, UnderlineMode};

verus! {

/// The attributes that a text is printed with.
pub struct Style {
    /// Font, emphasis and size flags.
    pub mode: PrintMode,
    /// Underline thickness; a single value, not a flag.
    pub underline: UnderlineMode,
    /// White on black.
    pub reverse_color: bool,
}

/// What a formatted string is: a text and its style. This is the model that
/// the contracts of [`FormattedStr`] speak of.
pub struct Styled<S> {
    pub style: Style,
    pub text: S,
}

/// The attributes that can be applied to a text.
pub enum Attribute {
    Emph,
    Higher,
    Wider,
    Underline1,
    Underline2,
    Reverse,
    Small,
}

impl Attribute {
    /// Whether the attribute sets the underline thickness.
    pub open spec fn is_underline(self) -> bool {
        self is Underline1 || self is Underline2
    }
}

/// The command that takes back what `cmd` selected: it selects the printer's
/// default for the same attribute.
pub open spec fn undo(cmd: EscPosCmd) -> EscPosCmd {
    match cmd {
        EscPosCmd::SelectReversePrinting(_) => EscPosCmd::SelectReversePrinting(false),
        EscPosCmd::SelectUnderlineMode(_) => EscPosCmd::SelectUnderlineMode(UnderlineMode::Off),
        EscPosCmd::SelectPrintMode(_) => EscPosCmd::SelectPrintMode(PrintMode::spec_empty()),
        other => other,
    }
}

/// The bytes of a sequence of commands, one after the other.
pub open spec fn encode_all(cmds: Seq<EscPosCmd>) -> Seq<u8>
    decreases cmds.len(),
{
    if cmds.len() == 0 {
        Seq::empty()
    } else {
        encode_all(cmds.drop_last()) + cmds.last().bytes()
    }
}

/// Encoding a sequence with one more command appends that command's bytes.
pub proof fn lemma_encode_all_push(cmds: Seq<EscPosCmd>, cmd: EscPosCmd)
    ensures
        encode_all(cmds.push(cmd)) == encode_all(cmds) + cmd.bytes(),
{
    assert(cmds.push(cmd).drop_last() =~= cmds);
}

impl Style {
    /// No attribute at all.
    pub open spec fn plain() -> Style {
        Style {
            mode: PrintMode::spec_empty(),
            underline: UnderlineMode::Off,
            reverse_color: false,
        }
    }

    /// The same, with the given flags added to the print mode.
    pub open spec fn with_flags(self, flags: PrintMode) -> Style {
        Style { mode: self.mode.spec_union(flags), ..self }
    }

    /// The same, with the underline thickness replaced.
    pub open spec fn with_underline(self, level: UnderlineMode) -> Style {
        Style { underline: level, ..self }
    }

    /// The same, emphasized.
    pub open spec fn emph(self) -> Style {
        self.with_flags(PrintMode::spec_emphasized())
    }

    /// The same, in double height.
    pub open spec fn higher(self) -> Style {
        self.with_flags(PrintMode::spec_double_height())
    }

    /// The same, in double width.
    pub open spec fn wider(self) -> Style {
        self.with_flags(PrintMode::spec_double_width())
    }

    /// The same, with a one-dot underline.
    pub open spec fn underline1(self) -> Style {
        self.with_underline(UnderlineMode::OneDot)
    }

    /// The same, with a two-dot underline.
    pub open spec fn underline2(self) -> Style {
        self.with_underline(UnderlineMode::TwoDot)
    }

    /// The same, white on black.
    pub open spec fn reverse(self) -> Style {
        Style { reverse_color: true, ..self }
    }

    /// The same, in the compressed font.
    pub open spec fn small(self) -> Style {
        self.with_flags(PrintMode::spec_font_b())
    }

    /// The same, with one more attribute.
    pub open spec fn apply(self, attribute: Attribute) -> Style {
        match attribute {
            Attribute::Emph => self.emph(),
            Attribute::Higher => self.higher(),
            Attribute::Wider => self.wider(),
            Attribute::Underline1 => self.underline1(),
            Attribute::Underline2 => self.underline2(),
            Attribute::Reverse => self.reverse(),
            Attribute::Small => self.small(),
        }
    }

    /// The commands sent before the text, in order: reverse printing if it is
    /// set, the underline thickness if there is one, and always the print
    /// mode, which also clears whatever mode the printer was left in.
    pub open spec fn enter(self) -> Seq<EscPosCmd<'static>> {
        let outer = if self.reverse_color {
            Seq::empty().push(EscPosCmd::SelectReversePrinting(true))
        } else {
            Seq::empty()
        };
        let middle = if self.underline != UnderlineMode::Off {
            outer.push(EscPosCmd::SelectUnderlineMode(self.underline))
        } else {
            outer
        };
        middle.push(EscPosCmd::SelectPrintMode(self.mode))
    }

    /// The commands sent after the text, in order: the empty print mode, no
    /// underline if there was one, and no reverse printing if it was set.
    pub open spec fn leave(self) -> Seq<EscPosCmd<'static>> {
        let inner = Seq::empty().push(EscPosCmd::SelectPrintMode(PrintMode::spec_empty()));
        let middle = if self.underline != UnderlineMode::Off {
            inner.push(EscPosCmd::SelectUnderlineMode(UnderlineMode::Off))
        } else {
            inner
        };
        if self.reverse_color {
            middle.push(EscPosCmd::SelectReversePrinting(false))
        } else {
            middle
        }
    }

    /// The bytes that print `text`, given as bytes, in this style and leave
    /// the printer as it was: the entering commands, the text, the leaving
    /// commands.
    pub open spec fn wrap(self, text: Seq<u8>) -> Seq<u8> {
        encode_all(self.enter()) + text + encode_all(self.leave())
    }

    /// Applying an attribute twice is applying it once.
    pub proof fn lemma_apply_idempotent(self, a: Attribute)
        ensures
            self.apply(a).apply(a) == self.apply(a),
    {
        PrintMode::lemma_union_idempotent(self.mode, PrintMode::spec_emphasized());
        PrintMode::lemma_union_idempotent(self.mode, PrintMode::spec_double_height());
        PrintMode::lemma_union_idempotent(self.mode, PrintMode::spec_double_width());
        PrintMode::lemma_union_idempotent(self.mode, PrintMode::spec_font_b());
    }

    /// Two attributes can be applied in either order, unless they are the two
    /// underline thicknesses.
    pub proof fn lemma_apply_commutes(self, a: Attribute, b: Attribute)
        requires
            !(a.is_underline() && b.is_underline() && a != b),
        ensures
            self.apply(a).apply(b) == self.apply(b).apply(a),
    {
        let e = PrintMode::spec_emphasized();
        let h = PrintMode::spec_double_height();
        let w = PrintMode::spec_double_width();
        let f = PrintMode::spec_font_b();
        PrintMode::lemma_union_order(self.mode, e, h);
        PrintMode::lemma_union_order(self.mode, e, w);
        PrintMode::lemma_union_order(self.mode, e, f);
        PrintMode::lemma_union_order(self.mode, h, w);
        PrintMode::lemma_union_order(self.mode, h, f);
        PrintMode::lemma_union_order(self.mode, w, f);
    }

    /// Of two underline thicknesses applied one after the other, the second
    /// stands and nothing is left of the first.
    pub proof fn lemma_underline_last_wins(self, a: Attribute, b: Attribute)
        requires
            a.is_underline(),
            b.is_underline(),
        ensures
            self.apply(a).apply(b) == self.apply(b),
    {
    }

    /// With one dot and then two applied, the one underline command among
    /// the entering commands selects two dots.
    pub proof fn lemma_one_then_two_dots(self)
        ensures
            self.underline1().underline2() == self.underline2(),
            self.underline1().underline2().enter().contains(
                EscPosCmd::SelectUnderlineMode(UnderlineMode::TwoDot),
            ),
            !self.underline1().underline2().enter().contains(
                EscPosCmd::SelectUnderlineMode(UnderlineMode::OneDot),
            ),
    {
        let enter = self.underline1().underline2().enter();
        let two = EscPosCmd::SelectUnderlineMode(UnderlineMode::TwoDot);
        if self.reverse_color {
            assert(enter[1] == two);
        } else {
            assert(enter[0] == two);
        }
    }

    /// The commands sent after the text are those sent before it in reverse
    /// order, each replaced by the command that takes it back. On both sides
    /// the print mode is next to the text, and reverse printing, where it is
    /// set, is outermost.
    pub proof fn lemma_leave_mirrors_enter(self)
        ensures
            self.leave() == self.enter().reverse().map_values(|cmd: EscPosCmd| undo(cmd)),
            self.enter().last() == EscPosCmd::SelectPrintMode(self.mode),
            self.leave().first() == EscPosCmd::SelectPrintMode(PrintMode::spec_empty()),
            self.reverse_color ==> self.enter().first() == EscPosCmd::SelectReversePrinting(true)
                && self.leave().last() == EscPosCmd::SelectReversePrinting(false),
    {
        assert(self.leave() =~= self.enter().reverse().map_values(|cmd: EscPosCmd| undo(cmd)));
    }

    /// The bytes around a text, written out: `GS B 1` if reversed, `ESC - n`
    /// if underlined with `n` dots, `ESC ! mode`, the text, `ESC ! 0`,
    /// `ESC - 0` if underlined, `GS B 0` if reversed.
    pub proof fn lemma_wrap_written_out(self, text: Seq<u8>)
        ensures
            self.wrap(text) == (if self.reverse_color {
                seq![GS, 0x42u8, DIGIT_1]
            } else {
                Seq::<u8>::empty()
            }) + (if self.underline != UnderlineMode::Off {
                seq![ESC, 0x2du8, self.underline.spec_code()]
            } else {
                Seq::<u8>::empty()
            }) + seq![ESC, 0x21u8, self.mode@] + text + seq![ESC, 0x21u8, 0u8] + (if self.underline
                != UnderlineMode::Off {
                seq![ESC, 0x2du8, 0u8]
            } else {
                Seq::<u8>::empty()
            }) + (if self.reverse_color {
                seq![GS, 0x42u8, DIGIT_0]
            } else {
                Seq::<u8>::empty()
            }),
    {
        let none = Seq::<EscPosCmd>::empty();
        let reverse_on = EscPosCmd::SelectReversePrinting(true);
        let reverse_off = EscPosCmd::SelectReversePrinting(false);
        let line_on = EscPosCmd::SelectUnderlineMode(self.underline);
        let line_off = EscPosCmd::SelectUnderlineMode(UnderlineMode::Off);
        let mode_on = EscPosCmd::SelectPrintMode(self.mode);
        let mode_off = EscPosCmd::SelectPrintMode(PrintMode::spec_empty());
        PrintMode::lemma_flag_bits();
        assert(encode_all(none) =~= Seq::<u8>::empty());
        lemma_encode_all_push(none, reverse_on);
        lemma_encode_all_push(none, line_on);
        lemma_encode_all_push(none, mode_on);
        lemma_encode_all_push(none.push(reverse_on), line_on);
        lemma_encode_all_push(none.push(reverse_on), mode_on);
        lemma_encode_all_push(none.push(line_on), mode_on);
        lemma_encode_all_push(none.push(reverse_on).push(line_on), mode_on);
        lemma_encode_all_push(none, mode_off);
        lemma_encode_all_push(none.push(mode_off), line_off);
        lemma_encode_all_push(none.push(mode_off), reverse_off);
        lemma_encode_all_push(none.push(mode_off).push(line_off), reverse_off);
    }

    /// A text that is neither reversed nor underlined is wrapped in the two
    /// print-mode commands and in nothing else.
    pub proof fn lemma_wrap_without_wrappers(self, text: Seq<u8>)
        requires
            !self.reverse_color,
            self.underline == UnderlineMode::Off,
        ensures
            self.wrap(text) == seq![ESC, 0x21u8, self.mode@] + text + seq![ESC, 0x21u8, 0u8],
    {
        self.lemma_wrap_written_out(text);
    }
}

impl<S> Styled<S> {
    /// The text with no attribute.
    pub open spec fn plain(text: S) -> Styled<S> {
        Styled { style: Style::plain(), text }
    }

    /// The same text in another style.
    pub open spec fn restyled(self, style: Style) -> Styled<S> {
        Styled { style, text: self.text }
    }

    /// The same, with one more attribute.
    pub open spec fn apply(self, attribute: Attribute) -> Styled<S> {
        self.restyled(self.style.apply(attribute))
    }

    /// Applying an attribute to a text twice is applying it once.
    pub proof fn lemma_apply_idempotent(self, a: Attribute)
        ensures
            self.apply(a).apply(a) == self.apply(a),
    {
        self.style.lemma_apply_idempotent(a);
    }

    /// Two attributes can be applied to a text in either order, unless they
    /// are the two underline thicknesses.
    pub proof fn lemma_apply_commutes(self, a: Attribute, b: Attribute)
        requires
            !(a.is_underline() && b.is_underline() && a != b),
        ensures
            self.apply(a).apply(b) == self.apply(b).apply(a),
    {
        self.style.lemma_apply_commutes(a, b);
    }

    /// Of two underline thicknesses applied to a text one after the other,
    /// the second stands.
    pub proof fn lemma_underline_last_wins(self, a: Attribute, b: Attribute)
        requires
            a.is_underline(),
            b.is_underline(),
        ensures
            self.apply(a).apply(b) == self.apply(b),
    {
    }

    /// Emphasizing a text twice gives the print-mode byte that emphasizing
    /// it once gives.
    pub proof fn lemma_emph_twice(self)
        ensures
            self.apply(Attribute::Emph).apply(Attribute::Emph).style.mode@ == self.apply(
                Attribute::Emph,
            ).style.mode@,
    {
        self.lemma_apply_idempotent(Attribute::Emph);
    }
}

impl<'s> Styled<&'s str> {
    /// The bytes that print the text in its style and leave the printer as
    /// it was.
    pub open spec fn bytes(self) -> Seq<u8> {
        self.style.wrap(self.text.spec_bytes())
    }

    /// A text with no attribute is sent between two commands that select
    /// the empty print mode, and nothing else.
    pub proof fn lemma_plain_bytes(text: &'s str)
        ensures
            Styled::plain(text).bytes() == seq![ESC, 0x21u8, 0u8] + text.spec_bytes() + seq![
                ESC,
                0x21u8,
                0u8,
            ],
    {
        PrintMode::lemma_flag_bits();
        Style::plain().lemma_wrap_without_wrappers(text.spec_bytes());
    }

    /// Emphasis and double width give the same bytes in either order.
    pub proof fn lemma_emph_wider_commute(self)
        ensures
            self.apply(Attribute::Emph).apply(Attribute::Wider).bytes() == self.apply(
                Attribute::Wider,
            ).apply(Attribute::Emph).bytes(),
    {
        self.lemma_apply_commutes(Attribute::Emph, Attribute::Wider);
    }

    /// A text underlined with one dot and then with two is sent as a text
    /// underlined with two: the same bytes, with one underline command
    /// before the text, which selects two dots.
    pub proof fn lemma_one_then_two_dots(self)
        ensures
            self.apply(Attribute::Underline1).apply(Attribute::Underline2).bytes() == self.apply(
                Attribute::Underline2,
            ).bytes(),
            self.apply(Attribute::Underline1).apply(Attribute::Underline2).style.enter().contains(
                EscPosCmd::SelectUnderlineMode(UnderlineMode::TwoDot),
            ),
            !self.apply(Attribute::Underline1).apply(Attribute::Underline2).style.enter().contains(
                EscPosCmd::SelectUnderlineMode(UnderlineMode::OneDot),
            ),
    {
        self.style.lemma_one_then_two_dots();
    }
}

/// String with applied formatting.
/// This can be used to preformat strings before printing.
#[derive(Debug)]
pub struct FormattedStr<S> {
    mode: PrintMode,
    reverse_color: bool,
    text: S,
    underline: UnderlineMode,
}

impl<S> View for FormattedStr<S> {
    type V = Styled<S>;

    closed spec fn view(&self) -> Styled<S> {
        Styled {
            style: Style {
                mode: self.mode,
                underline: self.underline,
                reverse_color: self.reverse_color,
            },
            text: self.text,
        }
    }
}

/// The attributes, as methods that chain. Each returns the receiver's text
/// with one more attribute; `styled` says what the receiver stands for before
/// the call.
pub trait FmtStr<S>: Sized {
    /// The text and style that `self` stands for.
    spec fn styled(self) -> Styled<S>;

    /// Emphasized.
    fn emph(self) -> (r: FormattedStr<S>)
        ensures
            r@ == self.styled().apply(Attribute::Emph),
    ;

    /// In double height.
    fn higher(self) -> (r: FormattedStr<S>)
        ensures
            r@ == self.styled().apply(Attribute::Higher),
    ;

    /// In double width.
    fn wider(self) -> (r: FormattedStr<S>)
        ensures
            r@ == self.styled().apply(Attribute::Wider),
    ;

    /// Underlined, one dot thick.
    fn underline1(self) -> (r: FormattedStr<S>)
        ensures
            r@ == self.styled().apply(Attribute::Underline1),
    ;

    /// Underlined, two dots thick.
    fn underline2(self) -> (r: FormattedStr<S>)
        ensures
            r@ == self.styled().apply(Attribute::Underline2),
    ;

    /// White on black.
    fn reverse(self) -> (r: FormattedStr<S>)
        ensures
            r@ == self.styled().apply(Attribute::Reverse),
    ;

    /// In the compressed font.
    fn small(self) -> (r: FormattedStr<S>)
        ensures
            r@ == self.styled().apply(Attribute::Small),
    ;
}

impl<S> FormattedStr<S> {
    /// The text with no attribute.
    pub fn new(text: S) -> (r: FormattedStr<S>)
        ensures
            r@ == Styled::plain(text),
    {
        FormattedStr {
            mode: PrintMode::empty(),
            reverse_color: false,
            text,
            underline: UnderlineMode::Off,
        }
    }

    /// The print-mode flags.
    pub fn print_mode(&self) -> (r: PrintMode)
        ensures
            r == self@.style.mode,
    {
        self.mode
    }

    /// The underline thickness.
    pub fn underline_mode(&self) -> (r: UnderlineMode)
        ensures
            r == self@.style.underline,
    {
        self.underline
    }

    /// Whether the text is printed white on black.
    pub fn is_reversed(&self) -> (r: bool)
        ensures
            r == self@.style.reverse_color,
    {
        self.reverse_color
    }

    /// The text.
    pub fn text(&self) -> (r: &S)
        ensures
            *r == self@.text,
    {
        &self.text
    }
}

impl<'s> Default for FormattedStr<&'s str> {
    /// The empty text with no attribute.
    fn default() -> (r: FormattedStr<&'s str>)
        ensures
            r@ == Styled::plain(""),
    {
        FormattedStr::new("")
    }
}

impl<'s> FmtStr<&'s str> for &'s str {
    open spec fn styled(self) -> Styled<&'s str> {
        Styled::plain(self)
    }

    fn emph(self) -> (r: FormattedStr<&'s str>) {
        FormattedStr::new(self).emph()
    }

    fn higher(self) -> (r: FormattedStr<&'s str>) {
        FormattedStr::new(self).higher()
    }

    fn wider(self) -> (r: FormattedStr<&'s str>) {
        FormattedStr::new(self).wider()
    }

    fn underline1(self) -> (r: FormattedStr<&'s str>) {
        FormattedStr::new(self).underline1()
    }

    fn underline2(self) -> (r: FormattedStr<&'s str>) {
        FormattedStr::new(self).underline2()
    }

    fn reverse(self) -> (r: FormattedStr<&'s str>) {
        FormattedStr::new(self).reverse()
    }

    fn small(self) -> (r: FormattedStr<&'s str>) {
        FormattedStr::new(self).small()
    }
}

impl<S> FmtStr<S> for FormattedStr<S> {
    open spec fn styled(self) -> Styled<S> {
        self@
    }

    fn emph(self) -> (r: FormattedStr<S>) {
        FormattedStr { mode: self.mode.union(PrintMode::emphasized()), ..self }
    }

    fn higher(self) -> (r: FormattedStr<S>) {
        FormattedStr { mode: self.mode.union(PrintMode::double_height()), ..self }
    }

    fn wider(self) -> (r: FormattedStr<S>) {
        FormattedStr { mode: self.mode.union(PrintMode::double_width()), ..self }
    }

    fn underline1(self) -> (r: FormattedStr<S>) {
        FormattedStr { underline: UnderlineMode::OneDot, ..self }
    }

    fn underline2(self) -> (r: FormattedStr<S>) {
        FormattedStr { underline: UnderlineMode::TwoDot, ..self }
    }

    fn reverse(self) -> (r: FormattedStr<S>) {
        FormattedStr { reverse_color: true, ..self }
    }

    fn small(self) -> (r: FormattedStr<S>) {
        FormattedStr { mode: self.mode.union(PrintMode::font_b()), ..self }
    }
}

/// Appends the bytes of a command that has an encoding.
fn emit(out: &mut Vec<u8>, cmd: EscPosCmd)
    requires
        cmd.is_supported(),
    ensures
        final(out)@ == old(out)@ + cmd.bytes(),
{
    match cmd.encode_into(out) {
        Ok(()) => {},
        Err(_) => {},
    }
}

impl<'s> FormattedStr<&'s str> {
    /// The bytes that print the text with its attributes: first the commands
    /// that select them, then the text, then the commands that take them
    /// back, so that nothing is left selected for what is printed next.
    pub fn render(&self) -> (r: Vec<u8>)
        ensures
            r@ == self@.bytes(),
    {
        let mut out: Vec<u8> = Vec::new();
        let ghost mut sent: Seq<EscPosCmd> = Seq::empty();
        assert(out@ == encode_all(sent));
        if self.reverse_color {
            emit(&mut out, EscPosCmd::SelectReversePrinting(true));
            proof {
                lemma_encode_all_push(sent, EscPosCmd::SelectReversePrinting(true));
                sent = sent.push(EscPosCmd::SelectReversePrinting(true));
            }
        }
        if self.underline != UnderlineMode::Off {
            emit(&mut out, EscPosCmd::SelectUnderlineMode(self.underline));
            proof {
                lemma_encode_all_push(sent, EscPosCmd::SelectUnderlineMode(self.underline));
                sent = sent.push(EscPosCmd::SelectUnderlineMode(self.underline));
            }
        }
        emit(&mut out, EscPosCmd::SelectPrintMode(self.mode));
        proof {
            lemma_encode_all_push(sent, EscPosCmd::SelectPrintMode(self.mode));
            sent = sent.push(EscPosCmd::SelectPrintMode(self.mode));
        }
        assert(sent == self@.style.enter());
        out.extend_from_slice(self.text.as_bytes());
        let ghost with_text = out@;

        let ghost mut back: Seq<EscPosCmd> = Seq::empty();
        emit(&mut out, EscPosCmd::SelectPrintMode(PrintMode::empty()));
        proof {
            lemma_encode_all_push(back, EscPosCmd::SelectPrintMode(PrintMode::spec_empty()));
            back = back.push(EscPosCmd::SelectPrintMode(PrintMode::spec_empty()));
        }
        assert(out@ == with_text + encode_all(back));
        if self.underline != UnderlineMode::Off {
            emit(&mut out, EscPosCmd::SelectUnderlineMode(UnderlineMode::Off));
            proof {
                lemma_encode_all_push(back, EscPosCmd::SelectUnderlineMode(UnderlineMode::Off));
                back = back.push(EscPosCmd::SelectUnderlineMode(UnderlineMode::Off));
            }
            assert(out@ == with_text + encode_all(back));
        }
        if self.reverse_color {
            emit(&mut out, EscPosCmd::SelectReversePrinting(false));
            proof {
                lemma_encode_all_push(back, EscPosCmd::SelectReversePrinting(false));
                back = back.push(EscPosCmd::SelectReversePrinting(false));
            }
            assert(out@ == with_text + encode_all(back));
        }
        assert(back == self@.style.leave());
        out
    }
}

} // verus!
