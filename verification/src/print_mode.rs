//! The flags of the `ESC !` command, kept as a bit set.

use vstd::prelude::*;

verus! {

/// Compressed font (font B).
pub const FONT_B: u8 = 0x01;

/// Emphasized (bold) print.
pub const EMPHASIZED: u8 = 0x08;

/// Double-height characters.
pub const DOUBLE_HEIGHT: u8 = 0x10;

/// Double-width characters.
pub const DOUBLE_WIDTH: u8 = 0x20;

/// The underline bit of the mode byte. The underline thickness is selected by
/// a command of its own; nothing in this crate sets this bit on its own account.
pub const UNDERLINE: u8 = 0x80;

/// Every bit that names a flag.
pub const ALL_FLAGS: u8 = 0xb9;

/// A set of print-mode flags. Its view is the byte that goes on the wire:
/// the bitwise OR of the flags in the set. A value never holds a bit outside
/// `ALL_FLAGS`.
#[derive(Clone, Copy, Debug, PartialEq, Eq, Structural, Hash)]
pub struct PrintMode {
    bits: u8,
}

impl View for PrintMode {
    type V = u8;

    closed spec fn view(&self) -> u8 {
        self.bits
    }
}

impl PrintMode {
    #[verifier::type_invariant]
    spec fn only_known_flags(self) -> bool {
        self.bits & !ALL_FLAGS == 0
    }

    /// The set made of the flags in `bits`; bits that name no flag are dropped.
    pub closed spec fn of(bits: u8) -> PrintMode {
        PrintMode { bits: bits & ALL_FLAGS }
    }

    /// The set that holds the flags of both `self` and `other`.
    pub open spec fn spec_union(self, other: PrintMode) -> PrintMode {
        PrintMode::of(self@ | other@)
    }

    /// `of(bits)` holds exactly the flags among `bits`.
    pub proof fn lemma_of(bits: u8)
        ensures
            PrintMode::of(bits)@ == bits & ALL_FLAGS,
    {
    }

    /// The byte of each set that holds one flag, and of the empty set.
    pub proof fn lemma_flag_bits()
        ensures
            PrintMode::spec_empty()@ == 0,
            PrintMode::spec_font_b()@ == FONT_B,
            PrintMode::spec_emphasized()@ == EMPHASIZED,
            PrintMode::spec_double_height()@ == DOUBLE_HEIGHT,
            PrintMode::spec_double_width()@ == DOUBLE_WIDTH,
            PrintMode::spec_underline()@ == UNDERLINE,
    {
        assert(0u8 & ALL_FLAGS == 0) by (bit_vector);
        assert(FONT_B & ALL_FLAGS == FONT_B) by (bit_vector);
        assert(EMPHASIZED & ALL_FLAGS == EMPHASIZED) by (bit_vector);
        assert(DOUBLE_HEIGHT & ALL_FLAGS == DOUBLE_HEIGHT) by (bit_vector);
        assert(DOUBLE_WIDTH & ALL_FLAGS == DOUBLE_WIDTH) by (bit_vector);
        assert(UNDERLINE & ALL_FLAGS == UNDERLINE) by (bit_vector);
    }

    /// Two sets with the same byte are the same set.
    pub proof fn lemma_eq_by_bits(a: PrintMode, b: PrintMode)
        requires
            a@ == b@,
        ensures
            a == b,
    {
    }

    /// Adding the same flags twice is adding them once.
    pub proof fn lemma_union_idempotent(a: PrintMode, b: PrintMode)
        ensures
            a.spec_union(b).spec_union(b) == a.spec_union(b),
    {
        let x = a@;
        let y = b@;
        assert((((x | y) & ALL_FLAGS) | y) & ALL_FLAGS == (x | y) & ALL_FLAGS) by (bit_vector);
    }

    /// The order in which flags are added does not matter.
    pub proof fn lemma_union_order(a: PrintMode, b: PrintMode, c: PrintMode)
        ensures
            a.spec_union(b).spec_union(c) == a.spec_union(c).spec_union(b),
    {
        let x = a@;
        let y = b@;
        let z = c@;
        assert((((x | y) & ALL_FLAGS) | z) & ALL_FLAGS == (((x | z) & ALL_FLAGS) | y) & ALL_FLAGS)
            by (bit_vector);
    }

    /// The empty set.
    pub open spec fn spec_empty() -> PrintMode {
        PrintMode::of(0)
    }

    /// The empty set.
    #[verifier::when_used_as_spec(spec_empty)]
    pub fn empty() -> (r: PrintMode)
        ensures
            r == PrintMode::spec_empty(),
            r@ == 0,
    {
        assert(0u8 & !ALL_FLAGS == 0) by (bit_vector);
        assert(0u8 & ALL_FLAGS == 0) by (bit_vector);
        PrintMode { bits: 0 }
    }

    /// The set that holds the compressed font alone.
    pub open spec fn spec_font_b() -> PrintMode {
        PrintMode::of(FONT_B)
    }

    /// The set that holds the compressed font alone.
    #[verifier::when_used_as_spec(spec_font_b)]
    pub fn font_b() -> (r: PrintMode)
        ensures
            r == PrintMode::spec_font_b(),
            r@ == FONT_B,
    {
        assert(FONT_B & !ALL_FLAGS == 0 && FONT_B & ALL_FLAGS == FONT_B) by (bit_vector);
        PrintMode { bits: FONT_B }
    }

    /// The set that holds emphasized print alone.
    pub open spec fn spec_emphasized() -> PrintMode {
        PrintMode::of(EMPHASIZED)
    }

    /// The set that holds emphasized print alone.
    #[verifier::when_used_as_spec(spec_emphasized)]
    pub fn emphasized() -> (r: PrintMode)
        ensures
            r == PrintMode::spec_emphasized(),
            r@ == EMPHASIZED,
    {
        assert(EMPHASIZED & !ALL_FLAGS == 0 && EMPHASIZED & ALL_FLAGS == EMPHASIZED) by (bit_vector);
        PrintMode { bits: EMPHASIZED }
    }

    /// The set that holds double-height characters alone.
    pub open spec fn spec_double_height() -> PrintMode {
        PrintMode::of(DOUBLE_HEIGHT)
    }

    /// The set that holds double-height characters alone.
    #[verifier::when_used_as_spec(spec_double_height)]
    pub fn double_height() -> (r: PrintMode)
        ensures
            r == PrintMode::spec_double_height(),
            r@ == DOUBLE_HEIGHT,
    {
        assert(DOUBLE_HEIGHT & !ALL_FLAGS == 0 && DOUBLE_HEIGHT & ALL_FLAGS == DOUBLE_HEIGHT) by (bit_vector);
        PrintMode { bits: DOUBLE_HEIGHT }
    }

    /// The set that holds double-width characters alone.
    pub open spec fn spec_double_width() -> PrintMode {
        PrintMode::of(DOUBLE_WIDTH)
    }

    /// The set that holds double-width characters alone.
    #[verifier::when_used_as_spec(spec_double_width)]
    pub fn double_width() -> (r: PrintMode)
        ensures
            r == PrintMode::spec_double_width(),
            r@ == DOUBLE_WIDTH,
    {
        assert(DOUBLE_WIDTH & !ALL_FLAGS == 0 && DOUBLE_WIDTH & ALL_FLAGS == DOUBLE_WIDTH) by (bit_vector);
        PrintMode { bits: DOUBLE_WIDTH }
    }

    /// The set that holds the underline bit alone.
    pub open spec fn spec_underline() -> PrintMode {
        PrintMode::of(UNDERLINE)
    }

    /// The set that holds the underline bit alone.
    #[verifier::when_used_as_spec(spec_underline)]
    pub fn underline() -> (r: PrintMode)
        ensures
            r == PrintMode::spec_underline(),
            r@ == UNDERLINE,
    {
        assert(UNDERLINE & !ALL_FLAGS == 0 && UNDERLINE & ALL_FLAGS == UNDERLINE) by (bit_vector);
        PrintMode { bits: UNDERLINE }
    }

    /// Whether the set holds no flag.
    pub fn is_empty(&self) -> (r: bool)
        ensures
            r == (self@ == 0),
    {
        self.bits == 0
    }

    /// Whether every flag of `other` is in this set.
    pub fn contains(&self, other: PrintMode) -> (r: bool)
        ensures
            r == (self@ & other@ == other@),
    {
        self.bits & other.bits == other.bits
    }

    /// The byte that stands for this set on the wire.
    pub fn bits(&self) -> (r: u8)
        ensures
            r == self@,
            r & !ALL_FLAGS == 0,
    {
        proof {
            use_type_invariant(self);
        }
        self.bits
    }

    /// The set of the flags in `bits`, or `None` where `bits` holds a bit that
    /// names no flag.
    pub fn from_bits(bits: u8) -> (r: Option<PrintMode>)
        ensures
            r is Some <==> bits & !ALL_FLAGS == 0,
            r matches Some(m) ==> m@ == bits && m == PrintMode::of(bits),
    {
        if bits & !ALL_FLAGS == 0 {
            assert(bits & !ALL_FLAGS == 0 ==> bits & ALL_FLAGS == bits) by (bit_vector);
            Some(PrintMode { bits })
        } else {
            None
        }
    }

    /// The set of the flags among `bits`.
    pub fn from_bits_truncate(bits: u8) -> (r: PrintMode)
        ensures
            r == PrintMode::of(bits),
            r@ == bits & ALL_FLAGS,
    {
        assert((bits & ALL_FLAGS) & !ALL_FLAGS == 0) by (bit_vector);
        PrintMode { bits: bits & ALL_FLAGS }
    }

    /// The union of two sets.
    #[verifier::when_used_as_spec(spec_union)]
    pub fn union(self, other: PrintMode) -> (r: PrintMode)
        ensures
            r == self.spec_union(other),
            r@ == self@ | other@,
    {
        proof {
            use_type_invariant(self);
            use_type_invariant(other);
        }
        let a = self.bits;
        let b = other.bits;
        assert(a & !ALL_FLAGS == 0 && b & !ALL_FLAGS == 0 ==> (a | b) & !ALL_FLAGS == 0 && (a | b)
            & ALL_FLAGS == a | b) by (bit_vector);
        PrintMode { bits: a | b }
    }
}

impl Default for PrintMode {
    /// The empty set.
    fn default() -> (r: PrintMode)
        ensures
            r == PrintMode::spec_empty(),
            r@ == 0,
    {
        PrintMode::empty()
    }
}

} // verus!
