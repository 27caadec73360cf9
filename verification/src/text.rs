//! Operations on text that the standard library and outside crates carry out.

use vstd::prelude::*;

verus! {

/// The lowercase form of a text, as `str::to_lowercase` computes it from
/// the Unicode tables of the standard library.
pub uninterp spec fn lowercased(text: Seq<char>) -> Seq<char>;

/// Calls `str::to_lowercase`. Taken on trust, not proved: the call returns
/// the lowercase form of `text` as a new string, and that form depends on
/// the text alone.
#[verifier::external_body]
pub(crate) fn to_lowercase(text: &str) -> (r: String)
    ensures
        r@ == lowercased(text@),
{
    text.to_lowercase()
}

/// Whether the text begins with the character `first`.
pub open spec fn spec_starts_with(text: Seq<char>, first: char) -> bool {
    text.len() > 0 && text[0] == first
}

/// Whether the text begins with the character `first`.
pub fn starts_with(text: &str, first: char) -> (r: bool)
    ensures
        r == spec_starts_with(text@, first),
{
    !text.is_empty() && text.get_char(0) == first
}

/// Whether the string holds exactly the text `literal`.
pub fn is_text(string: &String, literal: &str) -> (r: bool)
    ensures
        r == (string@ == literal@),
{
    *string == String::from_str(literal)
}

/// Whether the character is one of the ten decimal digits.
pub open spec fn is_digit(c: char) -> bool {
    0x30 <= c as u32 <= 0x39
}

/// Whether the text is made of decimal digits only.
pub open spec fn all_digits(text: Seq<char>) -> bool {
    forall|i: int| 0 <= i < text.len() ==> is_digit(#[trigger] text[i])
}

/// The number that a sequence of decimal digits stands for.
pub open spec fn decimal_value(digits: Seq<char>) -> int
    decreases digits.len(),
{
    if digits.len() == 0 {
        0
    } else {
        10 * decimal_value(digits.drop_last()) + (digits.last() as u32 - 0x30)
    }
}

/// The integer that a text stands for: an optional sign, `+` or `-`, and
/// then one or more decimal digits and nothing else.
pub open spec fn integer_of(text: Seq<char>) -> Option<int> {
    let signed = text.len() > 0 && (text[0] == '-' || text[0] == '+');
    let digits = if signed {
        text.drop_first()
    } else {
        text
    };
    if digits.len() > 0 && all_digits(digits) {
        Some(
            if signed && text[0] == '-' {
                -decimal_value(digits)
            } else {
                decimal_value(digits)
            },
        )
    } else {
        None
    }
}

/// The 64-bit integer that a text stands for, if it stands for an integer
/// and that integer fits.
pub open spec fn parsed_integer(text: Seq<char>) -> Option<i64> {
    match integer_of(text) {
        Some(value) => if i64::MIN <= value <= i64::MAX {
            Some(value as i64)
        } else {
            None
        },
        None => None,
    }
}

/// Calls `str::parse::<i64>`. Taken on trust, not proved: the standard
/// library reads an optional sign followed by decimal digits only, and fails
/// on an empty text, on any other character, on a sign alone, and on a
/// number that does not fit in 64 bits.
#[verifier::external_body]
pub(crate) fn parse_integer(text: &str) -> (r: Option<i64>)
    ensures
        r == parsed_integer(text@),
{
    text.parse::<i64>().ok()
}

/// `String::push`. Taken on trust, not proved: it appends the character to
/// the end of the string.
pub assume_specification[ String::push ](string: &mut String, c: char)
    ensures
        final(string)@ == old(string)@.push(c),
;

/// The ASCII transliteration of a text, as the tables of the `any_ascii`
/// crate give it.
pub uninterp spec fn transliterated(text: Seq<char>) -> Seq<char>;

/// Calls `any_ascii::any_ascii`. Taken on trust, not proved: the call
/// returns the transliteration of `text`, which it looks up character by
/// character in the crate's tables and which depends on the text alone.
#[verifier::external_body]
pub(crate) fn transliterate(text: &str) -> (r: String)
    ensures
        r@ == transliterated(text@),
{
    any_ascii::any_ascii(text)
}

/// The pieces into which line breaks cut a text. There is always at least
/// one piece, a piece may be empty, and no piece holds a line break.
pub open spec fn split_lines(text: Seq<char>) -> Seq<Seq<char>>
    decreases text.len(),
{
    if text.len() == 0 {
        seq![Seq::empty()]
    } else {
        let before = split_lines(text.drop_last());
        if text.last() == '\n' {
            before.push(Seq::empty())
        } else {
            before.update(before.len() - 1, before.last().push(text.last()))
        }
    }
}

/// The pieces put together again, with a line break between each two.
pub open spec fn join_lines(pieces: Seq<Seq<char>>) -> Seq<char>
    decreases pieces.len(),
{
    if pieces.len() == 0 {
        Seq::empty()
    } else if pieces.len() == 1 {
        pieces[0]
    } else {
        join_lines(pieces.drop_last()) + seq!['\n'] + pieces.last()
    }
}

/// Cutting a text at its line breaks loses nothing but the line breaks:
/// there is at least one piece, no piece holds a line break, and the pieces
/// joined by line breaks are the text.
pub proof fn lemma_split_lines(text: Seq<char>)
    ensures
        split_lines(text).len() >= 1,
        forall|i: int, j: int|
            0 <= i < split_lines(text).len() && 0 <= j < split_lines(text)[i].len()
                ==> #[trigger] split_lines(text)[i][j] != '\n',
        join_lines(split_lines(text)) == text,
    decreases text.len(),
{
    if text.len() == 0 {
        assert(join_lines(split_lines(text)) =~= text);
    } else {
        let shorter = text.drop_last();
        lemma_split_lines(shorter);
        let before = split_lines(shorter);
        let c = text.last();
        if c == '\n' {
            let after = before.push(Seq::empty());
            assert(after.drop_last() =~= before);
            assert(join_lines(after) =~= join_lines(before) + seq!['\n']);
            assert(shorter + seq![c] =~= text);
        } else {
            let grown = before.last().push(c);
            let after = before.update(before.len() - 1, grown);
            if before.len() == 1 {
                assert(join_lines(after) =~= before[0].push(c));
            } else {
                assert(after.drop_last() =~= before.drop_last());
                assert(join_lines(after) =~= join_lines(before.drop_last()) + seq!['\n'] + grown);
                assert(join_lines(before) =~= join_lines(before.drop_last()) + seq!['\n']
                    + before.last());
            }
            assert(shorter.push(c) =~= text);
            assert(join_lines(after) =~= join_lines(before).push(c));
        }
    }
}

/// The texts of a list of strings.
pub open spec fn texts(strings: Seq<String>) -> Seq<Seq<char>> {
    strings.map_values(|string: String| string@)
}

/// Cuts a text at its line breaks.
pub fn lines(text: &str) -> (r: Vec<String>)
    ensures
        texts(r@) == split_lines(text@),
{
    let mut done: Vec<String> = Vec::new();
    let mut current = String::new();
    assert(text@.take(0) =~= Seq::<char>::empty());
    assert(texts(done@).push(current@) =~= seq![Seq::<char>::empty()]);
    for c in iter: text.chars()
        invariant
            iter.seq() == text@,
            texts(done@).push(current@) == split_lines(text@.take(iter.index() as int)),
    {
        let ghost seen = text@.take(iter.index() as int);
        let ghost pieces = texts(done@).push(current@);
        proof {
            let next = text@.take(iter.index() + 1);
            assert(next.drop_last() =~= seen);
            assert(next.last() == c);
        }
        if c == '\n' {
            done.push(current);
            current = String::new();
            assert(texts(done@).push(current@) =~= pieces.push(Seq::empty()));
        } else {
            current.push(c);
            assert(texts(done@).push(current@) =~= pieces.update(
                pieces.len() - 1,
                pieces.last().push(c),
            ));
        }
    }
    assert(text@.take(text@.len() as int) =~= text@);
    let ghost pieces = texts(done@).push(current@);
    done.push(current);
    assert(texts(done@) =~= pieces);
    done
}

} // verus!
