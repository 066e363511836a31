//! The set of operators that a syntax recognises.

use vstd::prelude::*;

verus! {

/// Every bit that names a flag of [`SyntaxOperator`].
pub const SYNTAX_OPERATOR_ALL_BITS: u64 = 0x1bffff7fffff56;

/// The grammar constructs that a syntax recognises.
///
/// Bits 0 to 31 are the engine's first operator word, bits 32 to 63 its second.
#[derive(Clone, Copy, Debug, PartialEq, Eq, Structural, Hash)]
pub struct SyntaxOperator {
    bits: u64,
}

proof fn lemma_operator_known()
    by (bit_vector)
    ensures
        0x0u64 & !SYNTAX_OPERATOR_ALL_BITS == 0,
        0x1bffff7fffff56u64 & !SYNTAX_OPERATOR_ALL_BITS == 0,
        0x2u64 & !SYNTAX_OPERATOR_ALL_BITS == 0,
        0x4u64 & !SYNTAX_OPERATOR_ALL_BITS == 0,
        0x10u64 & !SYNTAX_OPERATOR_ALL_BITS == 0,
        0x40u64 & !SYNTAX_OPERATOR_ALL_BITS == 0,
        0x100u64 & !SYNTAX_OPERATOR_ALL_BITS == 0,
        0x200u64 & !SYNTAX_OPERATOR_ALL_BITS == 0,
        0x400u64 & !SYNTAX_OPERATOR_ALL_BITS == 0,
        0x800u64 & !SYNTAX_OPERATOR_ALL_BITS == 0,
        0x1000u64 & !SYNTAX_OPERATOR_ALL_BITS == 0,
        0x2000u64 & !SYNTAX_OPERATOR_ALL_BITS == 0,
        0x4000u64 & !SYNTAX_OPERATOR_ALL_BITS == 0,
        0x8000u64 & !SYNTAX_OPERATOR_ALL_BITS == 0,
        0x10000u64 & !SYNTAX_OPERATOR_ALL_BITS == 0,
        0x20000u64 & !SYNTAX_OPERATOR_ALL_BITS == 0,
        0x40000u64 & !SYNTAX_OPERATOR_ALL_BITS == 0,
        0x80000u64 & !SYNTAX_OPERATOR_ALL_BITS == 0,
        0x100000u64 & !SYNTAX_OPERATOR_ALL_BITS == 0,
        0x200000u64 & !SYNTAX_OPERATOR_ALL_BITS == 0,
        0x400000u64 & !SYNTAX_OPERATOR_ALL_BITS == 0,
        0x800000u64 & !SYNTAX_OPERATOR_ALL_BITS == 0,
        0x1000000u64 & !SYNTAX_OPERATOR_ALL_BITS == 0,
        0x2000000u64 & !SYNTAX_OPERATOR_ALL_BITS == 0,
        0x4000000u64 & !SYNTAX_OPERATOR_ALL_BITS == 0,
        0x8000000u64 & !SYNTAX_OPERATOR_ALL_BITS == 0,
        0x10000000u64 & !SYNTAX_OPERATOR_ALL_BITS == 0,
        0x20000000u64 & !SYNTAX_OPERATOR_ALL_BITS == 0,
        0x40000000u64 & !SYNTAX_OPERATOR_ALL_BITS == 0,
        0x100000000u64 & !SYNTAX_OPERATOR_ALL_BITS == 0,
        0x200000000u64 & !SYNTAX_OPERATOR_ALL_BITS == 0,
        0x400000000u64 & !SYNTAX_OPERATOR_ALL_BITS == 0,
        0x800000000u64 & !SYNTAX_OPERATOR_ALL_BITS == 0,
        0x1000000000u64 & !SYNTAX_OPERATOR_ALL_BITS == 0,
        0x2000000000u64 & !SYNTAX_OPERATOR_ALL_BITS == 0,
        0x4000000000u64 & !SYNTAX_OPERATOR_ALL_BITS == 0,
        0x8000000000u64 & !SYNTAX_OPERATOR_ALL_BITS == 0,
        0x10000000000u64 & !SYNTAX_OPERATOR_ALL_BITS == 0,
        0x20000000000u64 & !SYNTAX_OPERATOR_ALL_BITS == 0,
        0x40000000000u64 & !SYNTAX_OPERATOR_ALL_BITS == 0,
        0x80000000000u64 & !SYNTAX_OPERATOR_ALL_BITS == 0,
        0x100000000000u64 & !SYNTAX_OPERATOR_ALL_BITS == 0,
        0x200000000000u64 & !SYNTAX_OPERATOR_ALL_BITS == 0,
        0x400000000000u64 & !SYNTAX_OPERATOR_ALL_BITS == 0,
        0x800000000000u64 & !SYNTAX_OPERATOR_ALL_BITS == 0,
        0x1000000000000u64 & !SYNTAX_OPERATOR_ALL_BITS == 0,
        0x2000000000000u64 & !SYNTAX_OPERATOR_ALL_BITS == 0,
        0x8000000000000u64 & !SYNTAX_OPERATOR_ALL_BITS == 0,
        0x10000000000000u64 & !SYNTAX_OPERATOR_ALL_BITS == 0,
{
}

proof fn lemma_operator_closed(a: u64, b: u64)
    by (bit_vector)
    requires
        a & !SYNTAX_OPERATOR_ALL_BITS == 0,
        b & !SYNTAX_OPERATOR_ALL_BITS == 0,
    ensures
        (a | b) & !SYNTAX_OPERATOR_ALL_BITS == 0,
        (a & b) & !SYNTAX_OPERATOR_ALL_BITS == 0,
        (a ^ b) & !SYNTAX_OPERATOR_ALL_BITS == 0,
        (a & !b) & !SYNTAX_OPERATOR_ALL_BITS == 0,
        (!a & SYNTAX_OPERATOR_ALL_BITS) & !SYNTAX_OPERATOR_ALL_BITS == 0,
        (a & b == b) <==> (b & !a == 0),
{
}

proof fn lemma_operator_truncated(a: u64)
    by (bit_vector)
    ensures
        (a & SYNTAX_OPERATOR_ALL_BITS) & !SYNTAX_OPERATOR_ALL_BITS == 0,
        (a & !SYNTAX_OPERATOR_ALL_BITS == 0) <==> (a & SYNTAX_OPERATOR_ALL_BITS == a),
{
}

/// `.` (bit 1 of the low word)
#[allow(non_snake_case)]
pub fn SYNTAX_OPERATOR_DOT_ANYCHAR() -> (r: SyntaxOperator)
    ensures
        r@ == 0x2,
{
    proof {
        lemma_operator_known();
    }
    SyntaxOperator { bits: 0x2 }
}

/// `*` (bit 2 of the low word)
#[allow(non_snake_case)]
pub fn SYNTAX_OPERATOR_ASTERISK_ZERO_INF() -> (r: SyntaxOperator)
    ensures
        r@ == 0x4,
{
    proof {
        lemma_operator_known();
    }
    SyntaxOperator { bits: 0x4 }
}

/// `+` (bit 4 of the low word)
#[allow(non_snake_case)]
pub fn SYNTAX_OPERATOR_PLUS_ONE_INF() -> (r: SyntaxOperator)
    ensures
        r@ == 0x10,
{
    proof {
        lemma_operator_known();
    }
    SyntaxOperator { bits: 0x10 }
}

/// `?` (bit 6 of the low word)
#[allow(non_snake_case)]
pub fn SYNTAX_OPERATOR_QMARK_ZERO_ONE() -> (r: SyntaxOperator)
    ensures
        r@ == 0x40,
{
    proof {
        lemma_operator_known();
    }
    SyntaxOperator { bits: 0x40 }
}

/// `{lower,upper}` (bit 8 of the low word)
#[allow(non_snake_case)]
pub fn SYNTAX_OPERATOR_BRACE_INTERVAL() -> (r: SyntaxOperator)
    ensures
        r@ == 0x100,
{
    proof {
        lemma_operator_known();
    }
    SyntaxOperator { bits: 0x100 }
}

/// `\{lower,upper\}` (bit 9 of the low word)
#[allow(non_snake_case)]
pub fn SYNTAX_OPERATOR_ESC_BRACE_INTERVAL() -> (r: SyntaxOperator)
    ensures
        r@ == 0x200,
{
    proof {
        lemma_operator_known();
    }
    SyntaxOperator { bits: 0x200 }
}

/// `|` (bit 10 of the low word)
#[allow(non_snake_case)]
pub fn SYNTAX_OPERATOR_VBAR_ALT() -> (r: SyntaxOperator)
    ensures
        r@ == 0x400,
{
    proof {
        lemma_operator_known();
    }
    SyntaxOperator { bits: 0x400 }
}

/// `\|` (bit 11 of the low word)
#[allow(non_snake_case)]
pub fn SYNTAX_OPERATOR_ESC_VBAR_ALT() -> (r: SyntaxOperator)
    ensures
        r@ == 0x800,
{
    proof {
        lemma_operator_known();
    }
    SyntaxOperator { bits: 0x800 }
}

/// `(...)` (bit 12 of the low word)
#[allow(non_snake_case)]
pub fn SYNTAX_OPERATOR_LPAREN_SUBEXP() -> (r: SyntaxOperator)
    ensures
        r@ == 0x1000,
{
    proof {
        lemma_operator_known();
    }
    SyntaxOperator { bits: 0x1000 }
}

/// `\(...\)` (bit 13 of the low word)
#[allow(non_snake_case)]
pub fn SYNTAX_OPERATOR_ESC_LPAREN_SUBEXP() -> (r: SyntaxOperator)
    ensures
        r@ == 0x2000,
{
    proof {
        lemma_operator_known();
    }
    SyntaxOperator { bits: 0x2000 }
}

/// `\A, \Z, \z` (bit 14 of the low word)
#[allow(non_snake_case)]
pub fn SYNTAX_OPERATOR_ESC_AZ_BUF_ANCHOR() -> (r: SyntaxOperator)
    ensures
        r@ == 0x4000,
{
    proof {
        lemma_operator_known();
    }
    SyntaxOperator { bits: 0x4000 }
}

/// `\G` (bit 15 of the low word)
#[allow(non_snake_case)]
pub fn SYNTAX_OPERATOR_ESC_CAPITAL_G_BEGIN_ANCHOR() -> (r: SyntaxOperator)
    ensures
        r@ == 0x8000,
{
    proof {
        lemma_operator_known();
    }
    SyntaxOperator { bits: 0x8000 }
}

/// `\num` (bit 16 of the low word)
#[allow(non_snake_case)]
pub fn SYNTAX_OPERATOR_DECIMAL_BACKREF() -> (r: SyntaxOperator)
    ensures
        r@ == 0x10000,
{
    proof {
        lemma_operator_known();
    }
    SyntaxOperator { bits: 0x10000 }
}

/// `[...]` (bit 17 of the low word)
#[allow(non_snake_case)]
pub fn SYNTAX_OPERATOR_BRACKET_CC() -> (r: SyntaxOperator)
    ensures
        r@ == 0x20000,
{
    proof {
        lemma_operator_known();
    }
    SyntaxOperator { bits: 0x20000 }
}

/// `\w, \W` (bit 18 of the low word)
#[allow(non_snake_case)]
pub fn SYNTAX_OPERATOR_ESC_W_WORD() -> (r: SyntaxOperator)
    ensures
        r@ == 0x40000,
{
    proof {
        lemma_operator_known();
    }
    SyntaxOperator { bits: 0x40000 }
}

/// `\<. \>` (bit 19 of the low word)
#[allow(non_snake_case)]
pub fn SYNTAX_OPERATOR_ESC_LTGT_WORD_BEGIN_END() -> (r: SyntaxOperator)
    ensures
        r@ == 0x80000,
{
    proof {
        lemma_operator_known();
    }
    SyntaxOperator { bits: 0x80000 }
}

/// `\b, \B` (bit 20 of the low word)
#[allow(non_snake_case)]
pub fn SYNTAX_OPERATOR_ESC_B_WORD_BOUND() -> (r: SyntaxOperator)
    ensures
        r@ == 0x100000,
{
    proof {
        lemma_operator_known();
    }
    SyntaxOperator { bits: 0x100000 }
}

/// `\s, \S` (bit 21 of the low word)
#[allow(non_snake_case)]
pub fn SYNTAX_OPERATOR_ESC_S_WHITE_SPACE() -> (r: SyntaxOperator)
    ensures
        r@ == 0x200000,
{
    proof {
        lemma_operator_known();
    }
    SyntaxOperator { bits: 0x200000 }
}

/// `\d, \D` (bit 22 of the low word)
#[allow(non_snake_case)]
pub fn SYNTAX_OPERATOR_ESC_D_DIGIT() -> (r: SyntaxOperator)
    ensures
        r@ == 0x400000,
{
    proof {
        lemma_operator_known();
    }
    SyntaxOperator { bits: 0x400000 }
}

/// `^, $` (bit 23 of the low word)
#[allow(non_snake_case)]
pub fn SYNTAX_OPERATOR_LINE_ANCHOR() -> (r: SyntaxOperator)
    ensures
        r@ == 0x800000,
{
    proof {
        lemma_operator_known();
    }
    SyntaxOperator { bits: 0x800000 }
}

/// `[:xxxx:]` (bit 24 of the low word)
#[allow(non_snake_case)]
pub fn SYNTAX_OPERATOR_POSIX_BRACKET() -> (r: SyntaxOperator)
    ensures
        r@ == 0x1000000,
{
    proof {
        lemma_operator_known();
    }
    SyntaxOperator { bits: 0x1000000 }
}

/// `??,*?,+?,{n,m}?` (bit 25 of the low word)
#[allow(non_snake_case)]
pub fn SYNTAX_OPERATOR_QMARK_NON_GREEDY() -> (r: SyntaxOperator)
    ensures
        r@ == 0x2000000,
{
    proof {
        lemma_operator_known();
    }
    SyntaxOperator { bits: 0x2000000 }
}

/// `\n,\r,\t,\a ...` (bit 26 of the low word)
#[allow(non_snake_case)]
pub fn SYNTAX_OPERATOR_ESC_CONTROL_CHARS() -> (r: SyntaxOperator)
    ensures
        r@ == 0x4000000,
{
    proof {
        lemma_operator_known();
    }
    SyntaxOperator { bits: 0x4000000 }
}

/// `\cx` (bit 27 of the low word)
#[allow(non_snake_case)]
pub fn SYNTAX_OPERATOR_ESC_C_CONTROL() -> (r: SyntaxOperator)
    ensures
        r@ == 0x8000000,
{
    proof {
        lemma_operator_known();
    }
    SyntaxOperator { bits: 0x8000000 }
}

/// `\OOO` (bit 28 of the low word)
#[allow(non_snake_case)]
pub fn SYNTAX_OPERATOR_ESC_OCTAL3() -> (r: SyntaxOperator)
    ensures
        r@ == 0x10000000,
{
    proof {
        lemma_operator_known();
    }
    SyntaxOperator { bits: 0x10000000 }
}

/// `\xHH` (bit 29 of the low word)
#[allow(non_snake_case)]
pub fn SYNTAX_OPERATOR_ESC_X_HEX2() -> (r: SyntaxOperator)
    ensures
        r@ == 0x20000000,
{
    proof {
        lemma_operator_known();
    }
    SyntaxOperator { bits: 0x20000000 }
}

/// `\x{7HHHHHHH}` (bit 30 of the low word)
#[allow(non_snake_case)]
pub fn SYNTAX_OPERATOR_ESC_X_BRACE_HEX8() -> (r: SyntaxOperator)
    ensures
        r@ == 0x40000000,
{
    proof {
        lemma_operator_known();
    }
    SyntaxOperator { bits: 0x40000000 }
}

/// `\Q...\E` (bit 0 of the high word)
#[allow(non_snake_case)]
pub fn SYNTAX_OPERATOR_ESC_CAPITAL_Q_QUOTE() -> (r: SyntaxOperator)
    ensures
        r@ == 0x100000000,
{
    proof {
        lemma_operator_known();
    }
    SyntaxOperator { bits: 0x100000000 }
}

/// `(?...)` (bit 1 of the high word)
#[allow(non_snake_case)]
pub fn SYNTAX_OPERATOR_QMARK_GROUP_EFFECT() -> (r: SyntaxOperator)
    ensures
        r@ == 0x200000000,
{
    proof {
        lemma_operator_known();
    }
    SyntaxOperator { bits: 0x200000000 }
}

/// `(?imsx),(?-imsx)` (bit 2 of the high word)
#[allow(non_snake_case)]
pub fn SYNTAX_OPERATOR_OPTION_PERL() -> (r: SyntaxOperator)
    ensures
        r@ == 0x400000000,
{
    proof {
        lemma_operator_known();
    }
    SyntaxOperator { bits: 0x400000000 }
}

/// `(?imx), (?-imx)` (bit 3 of the high word)
#[allow(non_snake_case)]
pub fn SYNTAX_OPERATOR_OPTION_RUBY() -> (r: SyntaxOperator)
    ensures
        r@ == 0x800000000,
{
    proof {
        lemma_operator_known();
    }
    SyntaxOperator { bits: 0x800000000 }
}

/// `?+,*+,++` (bit 4 of the high word)
#[allow(non_snake_case)]
pub fn SYNTAX_OPERATOR_PLUS_POSSESSIVE_REPEAT() -> (r: SyntaxOperator)
    ensures
        r@ == 0x1000000000,
{
    proof {
        lemma_operator_known();
    }
    SyntaxOperator { bits: 0x1000000000 }
}

/// `{n,m}+` (bit 5 of the high word)
#[allow(non_snake_case)]
pub fn SYNTAX_OPERATOR_PLUS_POSSESSIVE_INTERVAL() -> (r: SyntaxOperator)
    ensures
        r@ == 0x2000000000,
{
    proof {
        lemma_operator_known();
    }
    SyntaxOperator { bits: 0x2000000000 }
}

/// `[...&&..[..]..]` (bit 6 of the high word)
#[allow(non_snake_case)]
pub fn SYNTAX_OPERATOR_CCLASS_SET_OP() -> (r: SyntaxOperator)
    ensures
        r@ == 0x4000000000,
{
    proof {
        lemma_operator_known();
    }
    SyntaxOperator { bits: 0x4000000000 }
}

/// `(?<name>...)` (bit 7 of the high word)
#[allow(non_snake_case)]
pub fn SYNTAX_OPERATOR_QMARK_LT_NAMED_GROUP() -> (r: SyntaxOperator)
    ensures
        r@ == 0x8000000000,
{
    proof {
        lemma_operator_known();
    }
    SyntaxOperator { bits: 0x8000000000 }
}

/// `\k<name>` (bit 8 of the high word)
#[allow(non_snake_case)]
pub fn SYNTAX_OPERATOR_ESC_K_NAMED_BACKREF() -> (r: SyntaxOperator)
    ensures
        r@ == 0x10000000000,
{
    proof {
        lemma_operator_known();
    }
    SyntaxOperator { bits: 0x10000000000 }
}

/// `\g<name>, \g<n>` (bit 9 of the high word)
#[allow(non_snake_case)]
pub fn SYNTAX_OPERATOR_ESC_G_SUBEXP_CALL() -> (r: SyntaxOperator)
    ensures
        r@ == 0x20000000000,
{
    proof {
        lemma_operator_known();
    }
    SyntaxOperator { bits: 0x20000000000 }
}

/// `(?@..),(?@<x>..)` (bit 10 of the high word)
#[allow(non_snake_case)]
pub fn SYNTAX_OPERATOR_ATMARK_CAPTURE_HISTORY() -> (r: SyntaxOperator)
    ensures
        r@ == 0x40000000000,
{
    proof {
        lemma_operator_known();
    }
    SyntaxOperator { bits: 0x40000000000 }
}

/// `\C-x` (bit 11 of the high word)
#[allow(non_snake_case)]
pub fn SYNTAX_OPERATOR_ESC_CAPITAL_C_BAR_CONTROL() -> (r: SyntaxOperator)
    ensures
        r@ == 0x80000000000,
{
    proof {
        lemma_operator_known();
    }
    SyntaxOperator { bits: 0x80000000000 }
}

/// `\M-x` (bit 12 of the high word)
#[allow(non_snake_case)]
pub fn SYNTAX_OPERATOR_ESC_CAPITAL_M_BAR_META() -> (r: SyntaxOperator)
    ensures
        r@ == 0x100000000000,
{
    proof {
        lemma_operator_known();
    }
    SyntaxOperator { bits: 0x100000000000 }
}

/// `\v` as VTAB (bit 13 of the high word)
#[allow(non_snake_case)]
pub fn SYNTAX_OPERATOR_ESC_V_VTAB() -> (r: SyntaxOperator)
    ensures
        r@ == 0x200000000000,
{
    proof {
        lemma_operator_known();
    }
    SyntaxOperator { bits: 0x200000000000 }
}

/// `\uHHHH` (bit 14 of the high word)
#[allow(non_snake_case)]
pub fn SYNTAX_OPERATOR_ESC_U_HEX4() -> (r: SyntaxOperator)
    ensures
        r@ == 0x400000000000,
{
    proof {
        lemma_operator_known();
    }
    SyntaxOperator { bits: 0x400000000000 }
}

/// `` \`, \' `` (bit 15 of the high word)
#[allow(non_snake_case)]
pub fn SYNTAX_OPERATOR_ESC_GNU_BUF_ANCHOR() -> (r: SyntaxOperator)
    ensures
        r@ == 0x800000000000,
{
    proof {
        lemma_operator_known();
    }
    SyntaxOperator { bits: 0x800000000000 }
}

/// `\p{...}, \P{...}` (bit 16 of the high word)
#[allow(non_snake_case)]
pub fn SYNTAX_OPERATOR_ESC_P_BRACE_CHAR_PROPERTY() -> (r: SyntaxOperator)
    ensures
        r@ == 0x1000000000000,
{
    proof {
        lemma_operator_known();
    }
    SyntaxOperator { bits: 0x1000000000000 }
}

/// `\p{^..}, \P{^..}` (bit 17 of the high word)
#[allow(non_snake_case)]
pub fn SYNTAX_OPERATOR_ESC_P_BRACE_CIRCUMFLEX_NOT() -> (r: SyntaxOperator)
    ensures
        r@ == 0x2000000000000,
{
    proof {
        lemma_operator_known();
    }
    SyntaxOperator { bits: 0x2000000000000 }
}

/// `\h, \H` (bit 19 of the high word)
#[allow(non_snake_case)]
pub fn SYNTAX_OPERATOR_ESC_H_XDIGIT() -> (r: SyntaxOperator)
    ensures
        r@ == 0x8000000000000,
{
    proof {
        lemma_operator_known();
    }
    SyntaxOperator { bits: 0x8000000000000 }
}

/// `\` (bit 20 of the high word)
#[allow(non_snake_case)]
pub fn SYNTAX_OPERATOR_INEFFECTIVE_ESCAPE() -> (r: SyntaxOperator)
    ensures
        r@ == 0x10000000000000,
{
    proof {
        lemma_operator_known();
    }
    SyntaxOperator { bits: 0x10000000000000 }
}

impl SyntaxOperator {
    #[verifier::type_invariant]
    spec fn known_bits_only(self) -> bool {
        self.bits & !SYNTAX_OPERATOR_ALL_BITS == 0
    }

    /// The flags as a bit pattern: flag `f` is in the set when `self@ & f == f`.
    pub closed spec fn view(&self) -> u64 {
        self.bits
    }

    /// Whether `bits` sets nothing but flags this type names.
    pub open spec fn known(bits: u64) -> bool {
        bits & !SYNTAX_OPERATOR_ALL_BITS == 0
    }

    /// The set without any flag.
    pub fn empty() -> (r: SyntaxOperator)
        ensures
            r@ == 0,
    {
        proof {
            lemma_operator_known();
        }
        SyntaxOperator { bits: 0 }
    }

    /// The set of every flag.
    pub fn all() -> (r: SyntaxOperator)
        ensures
            r@ == SYNTAX_OPERATOR_ALL_BITS,
    {
        proof {
            lemma_operator_known();
        }
        SyntaxOperator { bits: SYNTAX_OPERATOR_ALL_BITS }
    }

    /// The raw bit pattern.
    pub fn bits(&self) -> (r: u64)
        ensures
            r == self@,
            Self::known(r),
    {
        proof {
            use_type_invariant(self);
        }
        self.bits
    }

    /// The set with exactly the bits of `bits`, unless one of them names no flag.
    pub fn from_bits(bits: u64) -> (r: Option<SyntaxOperator>)
        ensures
            Self::known(bits) ==> r is Some && r->Some_0@ == bits,
            !Self::known(bits) ==> r is None,
    {
        if bits & !SYNTAX_OPERATOR_ALL_BITS == 0 {
            Some(SyntaxOperator { bits })
        } else {
            None
        }
    }

    /// The set of the flags in `bits`; bits that name no flag are dropped.
    pub fn from_bits_truncate(bits: u64) -> (r: SyntaxOperator)
        ensures
            r@ == bits & SYNTAX_OPERATOR_ALL_BITS,
            Self::known(bits) ==> r@ == bits,
    {
        proof {
            lemma_operator_truncated(bits);
        }
        SyntaxOperator { bits: bits & SYNTAX_OPERATOR_ALL_BITS }
    }

    /// Whether no flag is set.
    pub fn is_empty(&self) -> (r: bool)
        ensures
            r == (self@ == 0),
    {
        self.bits == 0
    }

    /// Whether every flag is set.
    pub fn is_all(&self) -> (r: bool)
        ensures
            r == (self@ == SYNTAX_OPERATOR_ALL_BITS),
    {
        self.bits == SYNTAX_OPERATOR_ALL_BITS
    }

    /// Whether the two sets share a flag.
    pub fn intersects(&self, other: SyntaxOperator) -> (r: bool)
        ensures
            r == (self@ & other@ != 0),
    {
        self.bits & other.bits != 0
    }

    /// Whether every flag of `other` is set in `self`.
    pub fn contains(&self, other: SyntaxOperator) -> (r: bool)
        ensures
            r == (self@ & other@ == other@),
            r == (other@ & !self@ == 0),
    {
        proof {
            use_type_invariant(self);
            use_type_invariant(&other);
            lemma_operator_closed(self.bits, other.bits);
        }
        self.bits & other.bits == other.bits
    }

    /// Adds the flags of `other`.
    pub fn insert(&mut self, other: SyntaxOperator)
        ensures
            final(self)@ == old(self)@ | other@,
    {
        proof {
            use_type_invariant(&*self);
            use_type_invariant(&other);
            lemma_operator_closed(self.bits, other.bits);
        }
        self.bits = self.bits | other.bits;
    }

    /// Removes the flags of `other`.
    pub fn remove(&mut self, other: SyntaxOperator)
        ensures
            final(self)@ == old(self)@ & !other@,
    {
        proof {
            use_type_invariant(&*self);
            use_type_invariant(&other);
            lemma_operator_closed(self.bits, other.bits);
        }
        self.bits = self.bits & !other.bits;
    }

    /// Flips the flags of `other`.
    pub fn toggle(&mut self, other: SyntaxOperator)
        ensures
            final(self)@ == old(self)@ ^ other@,
    {
        proof {
            use_type_invariant(&*self);
            use_type_invariant(&other);
            lemma_operator_closed(self.bits, other.bits);
        }
        self.bits = self.bits ^ other.bits;
    }
}

impl vstd::std_specs::ops::BitOrSpecImpl for SyntaxOperator {
    open spec fn obeys_bitor_spec() -> bool {
        true
    }

    open spec fn bitor_req(self, rhs: SyntaxOperator) -> bool {
        true
    }

    closed spec fn bitor_spec(self, rhs: SyntaxOperator) -> SyntaxOperator {
        SyntaxOperator { bits: self.bits | rhs.bits }
    }
}

/// `a | b` holds the flags of either set.
impl core::ops::BitOr for SyntaxOperator {
    type Output = SyntaxOperator;

    fn bitor(self, rhs: SyntaxOperator) -> (r: SyntaxOperator)
        ensures
            r@ == self@ | rhs@,
    {
        proof {
            use_type_invariant(&self);
            use_type_invariant(&rhs);
            lemma_operator_closed(self.bits, rhs.bits);
        }
        SyntaxOperator { bits: self.bits | rhs.bits }
    }
}

impl vstd::std_specs::ops::BitAndSpecImpl for SyntaxOperator {
    open spec fn obeys_bitand_spec() -> bool {
        true
    }

    open spec fn bitand_req(self, rhs: SyntaxOperator) -> bool {
        true
    }

    closed spec fn bitand_spec(self, rhs: SyntaxOperator) -> SyntaxOperator {
        SyntaxOperator { bits: self.bits & rhs.bits }
    }
}

/// `a & b` holds the flags common to both sets.
impl core::ops::BitAnd for SyntaxOperator {
    type Output = SyntaxOperator;

    fn bitand(self, rhs: SyntaxOperator) -> (r: SyntaxOperator)
        ensures
            r@ == self@ & rhs@,
    {
        proof {
            use_type_invariant(&self);
            use_type_invariant(&rhs);
            lemma_operator_closed(self.bits, rhs.bits);
        }
        SyntaxOperator { bits: self.bits & rhs.bits }
    }
}

impl vstd::std_specs::ops::BitXorSpecImpl for SyntaxOperator {
    open spec fn obeys_bitxor_spec() -> bool {
        true
    }

    open spec fn bitxor_req(self, rhs: SyntaxOperator) -> bool {
        true
    }

    closed spec fn bitxor_spec(self, rhs: SyntaxOperator) -> SyntaxOperator {
        SyntaxOperator { bits: self.bits ^ rhs.bits }
    }
}

/// `a ^ b` holds the flags set in exactly one of the sets.
impl core::ops::BitXor for SyntaxOperator {
    type Output = SyntaxOperator;

    fn bitxor(self, rhs: SyntaxOperator) -> (r: SyntaxOperator)
        ensures
            r@ == self@ ^ rhs@,
    {
        proof {
            use_type_invariant(&self);
            use_type_invariant(&rhs);
            lemma_operator_closed(self.bits, rhs.bits);
        }
        SyntaxOperator { bits: self.bits ^ rhs.bits }
    }
}

impl vstd::std_specs::ops::SubSpecImpl for SyntaxOperator {
    open spec fn obeys_sub_spec() -> bool {
        true
    }

    open spec fn sub_req(self, rhs: SyntaxOperator) -> bool {
        true
    }

    closed spec fn sub_spec(self, rhs: SyntaxOperator) -> SyntaxOperator {
        SyntaxOperator { bits: self.bits & !rhs.bits }
    }
}

/// `a - b` holds the flags of `a` that `b` lacks.
impl core::ops::Sub for SyntaxOperator {
    type Output = SyntaxOperator;

    fn sub(self, rhs: SyntaxOperator) -> (r: SyntaxOperator)
        ensures
            r@ == self@ & !rhs@,
    {
        proof {
            use_type_invariant(&self);
            use_type_invariant(&rhs);
            lemma_operator_closed(self.bits, rhs.bits);
        }
        SyntaxOperator { bits: self.bits & !rhs.bits }
    }
}

impl vstd::std_specs::ops::NotSpecImpl for SyntaxOperator {
    open spec fn obeys_not_spec() -> bool {
        true
    }

    open spec fn not_req(self) -> bool {
        true
    }

    closed spec fn not_spec(self) -> SyntaxOperator {
        SyntaxOperator { bits: !self.bits & SYNTAX_OPERATOR_ALL_BITS }
    }
}

/// `!a` holds the flags that `a` lacks.
impl core::ops::Not for SyntaxOperator {
    type Output = SyntaxOperator;

    fn not(self) -> (r: SyntaxOperator)
        ensures
            r@ == !self@ & SYNTAX_OPERATOR_ALL_BITS,
    {
        proof {
            use_type_invariant(&self);
            lemma_operator_closed(self.bits, self.bits);
        }
        SyntaxOperator { bits: !self.bits & SYNTAX_OPERATOR_ALL_BITS }
    }
}

} // verus!
