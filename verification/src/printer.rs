//! Whole print jobs, as the bytes to send to the printer.

use vstd::prelude::*;
use vstd::string::StringSliceAdditionalSpecFns;
use crate::cmds::{CutMode, EscPosCmd};
use crate::format::{Attribute, FmtStr, FormattedStr, Styled};

verus! {

/// Lines that a job is fed before the paper is cut, so that the cut falls
/// below the last printed line.
pub const FEED_BEFORE_CUT: u8 = 5;

/// The samples of the test page: every attribute alone, then every pair of
/// attributes, each on a text that names them.
pub open spec fn test_page_samples() -> Seq<Styled<&'static str>> {
    seq![
        Styled::plain("Emphasized").apply(Attribute::Emph),
        Styled::plain("Higher").apply(Attribute::Higher),
        Styled::plain("Wider").apply(Attribute::Wider),
        Styled::plain("Underlined1").apply(Attribute::Underline1),
        Styled::plain("Reversed").apply(Attribute::Reverse),
        Styled::plain("Small").apply(Attribute::Small),
        Styled::plain("Emph Higher").apply(Attribute::Emph).apply(Attribute::Higher),
        Styled::plain("Emph Wider").apply(Attribute::Emph).apply(Attribute::Wider),
        Styled::plain("Emph Underlined1").apply(Attribute::Emph).apply(Attribute::Underline1),
        Styled::plain("Emph Reversed").apply(Attribute::Emph).apply(Attribute::Reverse),
        Styled::plain("Emph Small").apply(Attribute::Emph).apply(Attribute::Small),
        Styled::plain("Higher Wider").apply(Attribute::Higher).apply(Attribute::Wider),
        Styled::plain("Higher Underlined1").apply(Attribute::Higher).apply(Attribute::Underline1),
        Styled::plain("Higher Reversed").apply(Attribute::Higher).apply(Attribute::Reverse),
        Styled::plain("Higher Small").apply(Attribute::Higher).apply(Attribute::Small),
        Styled::plain("Wider Underlined1").apply(Attribute::Wider).apply(Attribute::Underline1),
        Styled::plain("Wider Reversed").apply(Attribute::Wider).apply(Attribute::Reverse),
        Styled::plain("Wider Small").apply(Attribute::Wider).apply(Attribute::Small),
        Styled::plain("Underlined1 Reversed").apply(Attribute::Underline1).apply(Attribute::Reverse),
        Styled::plain("Underlined1 Small").apply(Attribute::Underline1).apply(Attribute::Small),
        Styled::plain("Reversed Small").apply(Attribute::Reverse).apply(Attribute::Small),
    ]
}

/// One sample as a list entry: a dash, the sample, a line break.
pub open spec fn sample_line(sample: Styled<&str>) -> Seq<u8> {
    " - ".spec_bytes() + sample.bytes() + "\n".spec_bytes()
}

/// The list entries of the samples, one after the other.
pub open spec fn sample_lines(samples: Seq<Styled<&str>>) -> Seq<u8>
    decreases samples.len(),
{
    if samples.len() == 0 {
        Seq::empty()
    } else {
        sample_lines(samples.drop_last()) + sample_line(samples.last())
    }
}

/// The end of every job: feed, then a full cut.
pub open spec fn feed_and_cut() -> Seq<u8> {
    EscPosCmd::PrintAndFeedLines(FEED_BEFORE_CUT).bytes() + EscPosCmd::CutPaper(
        CutMode::Full,
    ).bytes()
}

/// The test page: the samples as a list, a reversed heading with a line of
/// plain text under it, then feed and cut.
pub open spec fn test_page_bytes() -> Seq<u8> {
    sample_lines(test_page_samples()) + Styled::plain(" TEST ").apply(Attribute::Reverse).bytes()
        + "\nDies ist ein Test\n".spec_bytes() + feed_and_cut()
}

/// A text printed as it is, then feed and cut.
pub open spec fn text_job_bytes(text: Seq<u8>) -> Seq<u8> {
    text + feed_and_cut()
}

/// Appends feed and cut to a job.
pub(crate) fn finish_job(out: &mut Vec<u8>)
    ensures
        final(out)@ == old(out)@ + feed_and_cut(),
{
    let _ = EscPosCmd::PrintAndFeedLines(FEED_BEFORE_CUT).encode_into(out);
    let _ = EscPosCmd::CutPaper(CutMode::Full).encode_into(out);
}

/// The bytes that print `text` as it is and cut the paper below it.
pub fn write_and_cut(text: &str) -> (r: Vec<u8>)
    ensures
        r@ == text_job_bytes(text.spec_bytes()),
{
    let mut out: Vec<u8> = Vec::new();
    out.extend_from_slice(text.as_bytes());
    finish_job(&mut out);
    out
}

/// The bytes that print the test page.
pub fn test_page() -> (r: Vec<u8>)
    ensures
        r@ == test_page_bytes(),
{
    let mut samples: Vec<FormattedStr<&'static str>> = Vec::new();
    samples.push("Emphasized".emph());
    samples.push("Higher".higher());
    samples.push("Wider".wider());
    samples.push("Underlined1".underline1());
    samples.push("Reversed".reverse());
    samples.push("Small".small());
    samples.push("Emph Higher".emph().higher());
    samples.push("Emph Wider".emph().wider());
    samples.push("Emph Underlined1".emph().underline1());
    samples.push("Emph Reversed".emph().reverse());
    samples.push("Emph Small".emph().small());
    samples.push("Higher Wider".higher().wider());
    samples.push("Higher Underlined1".higher().underline1());
    samples.push("Higher Reversed".higher().reverse());
    samples.push("Higher Small".higher().small());
    samples.push("Wider Underlined1".wider().underline1());
    samples.push("Wider Reversed".wider().reverse());
    samples.push("Wider Small".wider().small());
    samples.push("Underlined1 Reversed".underline1().reverse());
    samples.push("Underlined1 Small".underline1().small());
    samples.push("Reversed Small".reverse().small());
    let ghost models = samples@.map_values(|s: FormattedStr<&'static str>| s@);
    assert(models =~= test_page_samples());

    let mut out: Vec<u8> = Vec::new();
    let mut i: usize = 0;
    while i < samples.len()
        invariant
            i <= samples.len(),
            models == samples@.map_values(|s: FormattedStr<&'static str>| s@),
            out@ == sample_lines(models.take(i as int)),
        decreases samples.len() - i,
    {
        let rendered = samples[i].render();
        out.extend_from_slice(" - ".as_bytes());
        out.extend_from_slice(rendered.as_slice());
        out.extend_from_slice("\n".as_bytes());
        proof {
            assert(models.take(i + 1).drop_last() =~= models.take(i as int));
            assert(models.take(i + 1).last() == samples@[i as int]@);
        }
        i += 1;
    }
    assert(models.take(i as int) =~= models);
    let heading = " TEST ".reverse().render();
    out.extend_from_slice(heading.as_slice());
    out.extend_from_slice("\nDies ist ein Test\n".as_bytes());
    finish_job(&mut out);
    out
}

} // verus!
