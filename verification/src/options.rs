//! Compile time and search time options.

use vstd::prelude::*;

verus! {

/// Every bit that names a flag of [`Options`].
pub const OPTION_ALL_BITS: u32 = 0x7ff;

/// Regex parsing, compilation and evaluation options.
///
/// A set of independent flags; sets are combined with `|`.
#[derive(Clone, Copy, Debug, PartialEq, Eq, Structural, Hash)]
pub struct Options {
    bits: u32,
}

proof fn lemma_options_known()
    by (bit_vector)
    ensures
        0x0u32 & !OPTION_ALL_BITS == 0,
        0x7ffu32 & !OPTION_ALL_BITS == 0,
        0x1u32 & !OPTION_ALL_BITS == 0,
        0x2u32 & !OPTION_ALL_BITS == 0,
        0x4u32 & !OPTION_ALL_BITS == 0,
        0x8u32 & !OPTION_ALL_BITS == 0,
        0x10u32 & !OPTION_ALL_BITS == 0,
        0x20u32 & !OPTION_ALL_BITS == 0,
        0x40u32 & !OPTION_ALL_BITS == 0,
        0x80u32 & !OPTION_ALL_BITS == 0,
        0x100u32 & !OPTION_ALL_BITS == 0,
        0x200u32 & !OPTION_ALL_BITS == 0,
        0x400u32 & !OPTION_ALL_BITS == 0,
{
}

proof fn lemma_options_closed(a: u32, b: u32)
    by (bit_vector)
    requires
        a & !OPTION_ALL_BITS == 0,
        b & !OPTION_ALL_BITS == 0,
    ensures
        (a | b) & !OPTION_ALL_BITS == 0,
        (a & b) & !OPTION_ALL_BITS == 0,
        (a ^ b) & !OPTION_ALL_BITS == 0,
        (a & !b) & !OPTION_ALL_BITS == 0,
        (!a & OPTION_ALL_BITS) & !OPTION_ALL_BITS == 0,
        (a & b == b) <==> (b & !a == 0),
{
}

proof fn lemma_options_truncated(a: u32)
    by (bit_vector)
    ensures
        (a & OPTION_ALL_BITS) & !OPTION_ALL_BITS == 0,
        (a & !OPTION_ALL_BITS == 0) <==> (a & OPTION_ALL_BITS == a),
{
}

/// Default options. This is both a compile and a search time option.
#[allow(non_snake_case)]
pub fn OPTION_NONE() -> (r: Options)
    ensures
        r@ == 0x0,
{
    proof {
        lemma_options_known();
    }
    Options { bits: 0x0 }
}

/// Ambiguity match on. This is a compile time option.
#[allow(non_snake_case)]
pub fn OPTION_IGNORECASE() -> (r: Options)
    ensures
        r@ == 0x1,
{
    proof {
        lemma_options_known();
    }
    Options { bits: 0x1 }
}

/// Extended pattern form. This is a compile time option.
#[allow(non_snake_case)]
pub fn OPTION_EXTEND() -> (r: Options)
    ensures
        r@ == 0x2,
{
    proof {
        lemma_options_known();
    }
    Options { bits: 0x2 }
}

/// `'.'` matches a newline. This is a compile time option.
#[allow(non_snake_case)]
pub fn OPTION_MULTILINE() -> (r: Options)
    ensures
        r@ == 0x4,
{
    proof {
        lemma_options_known();
    }
    Options { bits: 0x4 }
}

/// `'^'` -> `'\A'`, `'$'` -> `'\Z'`. This is a compile time option.
#[allow(non_snake_case)]
pub fn OPTION_SINGLELINE() -> (r: Options)
    ensures
        r@ == 0x8,
{
    proof {
        lemma_options_known();
    }
    Options { bits: 0x8 }
}

/// Find the longest match. This is a compile time option.
#[allow(non_snake_case)]
pub fn OPTION_FIND_LONGEST() -> (r: Options)
    ensures
        r@ == 0x10,
{
    proof {
        lemma_options_known();
    }
    Options { bits: 0x10 }
}

/// Ignore an empty match. This is a compile time option.
#[allow(non_snake_case)]
pub fn OPTION_FIND_NOT_EMPTY() -> (r: Options)
    ensures
        r@ == 0x20,
{
    proof {
        lemma_options_known();
    }
    Options { bits: 0x20 }
}

/// Clears `OPTION_SINGLELINE`, which is enabled in `SYNTAX_POSIX_BASIC`,
/// `SYNTAX_POSIX_EXTENDED`, `SYNTAX_PERL`, `SYNTAX_PERL_NG` and `SYNTAX_JAVA`.
/// This is a compile time option.
#[allow(non_snake_case)]
pub fn OPTION_NEGATE_SINGLELINE() -> (r: Options)
    ensures
        r@ == 0x40,
{
    proof {
        lemma_options_known();
    }
    Options { bits: 0x40 }
}

/// Only named groups are captured. This is a search time option.
#[allow(non_snake_case)]
pub fn OPTION_DONT_CAPTURE_GROUP() -> (r: Options)
    ensures
        r@ == 0x80,
{
    proof {
        lemma_options_known();
    }
    Options { bits: 0x80 }
}

/// Named and unnamed groups are captured. This is a search time option.
#[allow(non_snake_case)]
pub fn OPTION_CAPTURE_GROUP() -> (r: Options)
    ensures
        r@ == 0x100,
{
    proof {
        lemma_options_known();
    }
    Options { bits: 0x100 }
}

/// The head of the string is not taken as the beginning of a line.
#[allow(non_snake_case)]
pub fn OPTION_NOTBOL() -> (r: Options)
    ensures
        r@ == 0x200,
{
    proof {
        lemma_options_known();
    }
    Options { bits: 0x200 }
}

/// The end of the string is not taken as the end of a line.
#[allow(non_snake_case)]
pub fn OPTION_NOTEOL() -> (r: Options)
    ensures
        r@ == 0x400,
{
    proof {
        lemma_options_known();
    }
    Options { bits: 0x400 }
}

impl Options {
    #[verifier::type_invariant]
    spec fn known_bits_only(self) -> bool {
        self.bits & !OPTION_ALL_BITS == 0
    }

    /// The flags as a bit pattern: flag `f` is in the set when `self@ & f == f`.
    pub closed spec fn view(&self) -> u32 {
        self.bits
    }

    /// Whether `bits` sets nothing but flags this type names.
    pub open spec fn known(bits: u32) -> bool {
        bits & !OPTION_ALL_BITS == 0
    }

    /// The set without any flag.
    pub fn empty() -> (r: Options)
        ensures
            r@ == 0,
    {
        proof {
            lemma_options_known();
        }
        Options { bits: 0 }
    }

    /// The set of every flag.
    pub fn all() -> (r: Options)
        ensures
            r@ == OPTION_ALL_BITS,
    {
        proof {
            lemma_options_known();
        }
        Options { bits: OPTION_ALL_BITS }
    }

    /// The raw bit pattern.
    pub fn bits(&self) -> (r: u32)
        ensures
            r == self@,
            Self::known(r),
    {
        proof {
            use_type_invariant(self);
        }
        self.bits
    }

    /// The set with exactly the bits of `bits`, unless one of them names no flag.
    pub fn from_bits(bits: u32) -> (r: Option<Options>)
        ensures
            Self::known(bits) ==> r is Some && r->Some_0@ == bits,
            !Self::known(bits) ==> r is None,
    {
        if bits & !OPTION_ALL_BITS == 0 {
            Some(Options { bits })
        } else {
            None
        }
    }

    /// The set of the flags in `bits`; bits that name no flag are dropped.
    pub fn from_bits_truncate(bits: u32) -> (r: Options)
        ensures
            r@ == bits & OPTION_ALL_BITS,
            Self::known(bits) ==> r@ == bits,
    {
        proof {
            lemma_options_truncated(bits);
        }
        Options { bits: bits & OPTION_ALL_BITS }
    }

    /// Whether no flag is set.
    pub fn is_empty(&self) -> (r: bool)
        ensures
            r == (self@ == 0),
    {
        self.bits == 0
    }

    /// Whether every flag is set.
    pub fn is_all(&self) -> (r: bool)
        ensures
            r == (self@ == OPTION_ALL_BITS),
    {
        self.bits == OPTION_ALL_BITS
    }

    /// Whether the two sets share a flag.
    pub fn intersects(&self, other: Options) -> (r: bool)
        ensures
            r == (self@ & other@ != 0),
    {
        self.bits & other.bits != 0
    }

    /// Whether every flag of `other` is set in `self`.
    pub fn contains(&self, other: Options) -> (r: bool)
        ensures
            r == (self@ & other@ == other@),
            r == (other@ & !self@ == 0),
    {
        proof {
            use_type_invariant(self);
            use_type_invariant(&other);
            lemma_options_closed(self.bits, other.bits);
        }
        self.bits & other.bits == other.bits
    }

    /// Adds the flags of `other`.
    pub fn insert(&mut self, other: Options)
        ensures
            final(self)@ == old(self)@ | other@,
    {
        proof {
            use_type_invariant(&*self);
            use_type_invariant(&other);
            lemma_options_closed(self.bits, other.bits);
        }
        self.bits = self.bits | other.bits;
    }

    /// Removes the flags of `other`.
    pub fn remove(&mut self, other: Options)
        ensures
            final(self)@ == old(self)@ & !other@,
    {
        proof {
            use_type_invariant(&*self);
            use_type_invariant(&other);
            lemma_options_closed(self.bits, other.bits);
        }
        self.bits = self.bits & !other.bits;
    }

    /// Flips the flags of `other`.
    pub fn toggle(&mut self, other: Options)
        ensures
            final(self)@ == old(self)@ ^ other@,
    {
        proof {
            use_type_invariant(&*self);
            use_type_invariant(&other);
            lemma_options_closed(self.bits, other.bits);
        }
        self.bits = self.bits ^ other.bits;
    }
}

impl vstd::std_specs::ops::BitOrSpecImpl for Options {
    open spec fn obeys_bitor_spec() -> bool {
        true
    }

    open spec fn bitor_req(self, rhs: Options) -> bool {
        true
    }

    closed spec fn bitor_spec(self, rhs: Options) -> Options {
        Options { bits: self.bits | rhs.bits }
    }
}

/// `a | b` holds the flags of either set.
impl core::ops::BitOr for Options {
    type Output = Options;

    fn bitor(self, rhs: Options) -> (r: Options)
        ensures
            r@ == self@ | rhs@,
    {
        proof {
            use_type_invariant(&self);
            use_type_invariant(&rhs);
            lemma_options_closed(self.bits, rhs.bits);
        }
        Options { bits: self.bits | rhs.bits }
    }
}

impl vstd::std_specs::ops::BitAndSpecImpl for Options {
    open spec fn obeys_bitand_spec() -> bool {
        true
    }

    open spec fn bitand_req(self, rhs: Options) -> bool {
        true
    }

    closed spec fn bitand_spec(self, rhs: Options) -> Options {
        Options { bits: self.bits & rhs.bits }
    }
}

/// `a & b` holds the flags common to both sets.
impl core::ops::BitAnd for Options {
    type Output = Options;

    fn bitand(self, rhs: Options) -> (r: Options)
        ensures
            r@ == self@ & rhs@,
    {
        proof {
            use_type_invariant(&self);
            use_type_invariant(&rhs);
            lemma_options_closed(self.bits, rhs.bits);
        }
        Options { bits: self.bits & rhs.bits }
    }
}

impl vstd::std_specs::ops::BitXorSpecImpl for Options {
    open spec fn obeys_bitxor_spec() -> bool {
        true
    }

    open spec fn bitxor_req(self, rhs: Options) -> bool {
        true
    }

    closed spec fn bitxor_spec(self, rhs: Options) -> Options {
        Options { bits: self.bits ^ rhs.bits }
    }
}

/// `a ^ b` holds the flags set in exactly one of the sets.
impl core::ops::BitXor for Options {
    type Output = Options;

    fn bitxor(self, rhs: Options) -> (r: Options)
        ensures
            r@ == self@ ^ rhs@,
    {
        proof {
            use_type_invariant(&self);
            use_type_invariant(&rhs);
            lemma_options_closed(self.bits, rhs.bits);
        }
        Options { bits: self.bits ^ rhs.bits }
    }
}

impl vstd::std_specs::ops::SubSpecImpl for Options {
    open spec fn obeys_sub_spec() -> bool {
        true
    }

    open spec fn sub_req(self, rhs: Options) -> bool {
        true
    }

    closed spec fn sub_spec(self, rhs: Options) -> Options {
        Options { bits: self.bits & !rhs.bits }
    }
}

/// `a - b` holds the flags of `a` that `b` lacks.
impl core::ops::Sub for Options {
    type Output = Options;

    fn sub(self, rhs: Options) -> (r: Options)
        ensures
            r@ == self@ & !rhs@,
    {
        proof {
            use_type_invariant(&self);
            use_type_invariant(&rhs);
            lemma_options_closed(self.bits, rhs.bits);
        }
        Options { bits: self.bits & !rhs.bits }
    }
}

impl vstd::std_specs::ops::NotSpecImpl for Options {
    open spec fn obeys_not_spec() -> bool {
        true
    }

    open spec fn not_req(self) -> bool {
        true
    }

    closed spec fn not_spec(self) -> Options {
        Options { bits: !self.bits & OPTION_ALL_BITS }
    }
}

/// `!a` holds the flags that `a` lacks.
impl core::ops::Not for Options {
    type Output = Options;

    fn not(self) -> (r: Options)
        ensures
            r@ == !self@ & OPTION_ALL_BITS,
    {
        proof {
            use_type_invariant(&self);
            lemma_options_closed(self.bits, self.bits);
        }
        Options { bits: !self.bits & OPTION_ALL_BITS }
    }
}

} // verus!
