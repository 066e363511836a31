//! The set of behaviors that a syntax follows.

use vstd::prelude::*;

verus! {

/// Every bit that names a flag of [`SyntaxBehavior`].
pub const SYNTAX_BEHAVIOR_ALL_BITS: u32 = 0x3b003ff;

/// The edge-case policies of a syntax.
#[derive(Clone, Copy, Debug, PartialEq, Eq, Structural, Hash)]
pub struct SyntaxBehavior {
    bits: u32,
}

proof fn lemma_behavior_known()
    by (bit_vector)
    ensures
        0x0u32 & !SYNTAX_BEHAVIOR_ALL_BITS == 0,
        0x3b003ffu32 & !SYNTAX_BEHAVIOR_ALL_BITS == 0,
        0x1u32 & !SYNTAX_BEHAVIOR_ALL_BITS == 0,
        0x2u32 & !SYNTAX_BEHAVIOR_ALL_BITS == 0,
        0x4u32 & !SYNTAX_BEHAVIOR_ALL_BITS == 0,
        0x8u32 & !SYNTAX_BEHAVIOR_ALL_BITS == 0,
        0x10u32 & !SYNTAX_BEHAVIOR_ALL_BITS == 0,
        0x20u32 & !SYNTAX_BEHAVIOR_ALL_BITS == 0,
        0x40u32 & !SYNTAX_BEHAVIOR_ALL_BITS == 0,
        0x80u32 & !SYNTAX_BEHAVIOR_ALL_BITS == 0,
        0x100u32 & !SYNTAX_BEHAVIOR_ALL_BITS == 0,
        0x200u32 & !SYNTAX_BEHAVIOR_ALL_BITS == 0,
        0x100000u32 & !SYNTAX_BEHAVIOR_ALL_BITS == 0,
        0x200000u32 & !SYNTAX_BEHAVIOR_ALL_BITS == 0,
        0x800000u32 & !SYNTAX_BEHAVIOR_ALL_BITS == 0,
        0x1000000u32 & !SYNTAX_BEHAVIOR_ALL_BITS == 0,
        0x2000000u32 & !SYNTAX_BEHAVIOR_ALL_BITS == 0,
{
}

proof fn lemma_behavior_closed(a: u32, b: u32)
    by (bit_vector)
    requires
        a & !SYNTAX_BEHAVIOR_ALL_BITS == 0,
        b & !SYNTAX_BEHAVIOR_ALL_BITS == 0,
    ensures
        (a | b) & !SYNTAX_BEHAVIOR_ALL_BITS == 0,
        (a & b) & !SYNTAX_BEHAVIOR_ALL_BITS == 0,
        (a ^ b) & !SYNTAX_BEHAVIOR_ALL_BITS == 0,
        (a & !b) & !SYNTAX_BEHAVIOR_ALL_BITS == 0,
        (!a & SYNTAX_BEHAVIOR_ALL_BITS) & !SYNTAX_BEHAVIOR_ALL_BITS == 0,
        (a & b == b) <==> (b & !a == 0),
{
}

proof fn lemma_behavior_truncated(a: u32)
    by (bit_vector)
    ensures
        (a & SYNTAX_BEHAVIOR_ALL_BITS) & !SYNTAX_BEHAVIOR_ALL_BITS == 0,
        (a & !SYNTAX_BEHAVIOR_ALL_BITS == 0) <==> (a & SYNTAX_BEHAVIOR_ALL_BITS == a),
{
}

/// `?, *, +, {n,m}` (bit 0)
#[allow(non_snake_case)]
pub fn SYNTAX_BEHAVIOR_CONTEXT_INDEP_REPEAT_OPS() -> (r: SyntaxBehavior)
    ensures
        r@ == 0x1,
{
    proof {
        lemma_behavior_known();
    }
    SyntaxBehavior { bits: 0x1 }
}

/// error or ignore (bit 1)
#[allow(non_snake_case)]
pub fn SYNTAX_BEHAVIOR_CONTEXT_INVALID_REPEAT_OPS() -> (r: SyntaxBehavior)
    ensures
        r@ == 0x2,
{
    proof {
        lemma_behavior_known();
    }
    SyntaxBehavior { bits: 0x2 }
}

/// `...)...` (bit 2)
#[allow(non_snake_case)]
pub fn SYNTAX_BEHAVIOR_ALLOW_UNMATCHED_CLOSE_SUBEXP() -> (r: SyntaxBehavior)
    ensures
        r@ == 0x4,
{
    proof {
        lemma_behavior_known();
    }
    SyntaxBehavior { bits: 0x4 }
}

/// `{???` (bit 3)
#[allow(non_snake_case)]
pub fn SYNTAX_BEHAVIOR_ALLOW_INVALID_INTERVAL() -> (r: SyntaxBehavior)
    ensures
        r@ == 0x8,
{
    proof {
        lemma_behavior_known();
    }
    SyntaxBehavior { bits: 0x8 }
}

/// `{,n} => {0,n}` (bit 4)
#[allow(non_snake_case)]
pub fn SYNTAX_BEHAVIOR_ALLOW_INTERVAL_LOW_ABBREV() -> (r: SyntaxBehavior)
    ensures
        r@ == 0x10,
{
    proof {
        lemma_behavior_known();
    }
    SyntaxBehavior { bits: 0x10 }
}

/// `/(\1)/,/\1()/ ..` (bit 5)
#[allow(non_snake_case)]
pub fn SYNTAX_BEHAVIOR_STRICT_CHECK_BACKREF() -> (r: SyntaxBehavior)
    ensures
        r@ == 0x20,
{
    proof {
        lemma_behavior_known();
    }
    SyntaxBehavior { bits: 0x20 }
}

/// `(?<=a|bc)` (bit 6)
#[allow(non_snake_case)]
pub fn SYNTAX_BEHAVIOR_DIFFERENT_LEN_ALT_LOOK_BEHIND() -> (r: SyntaxBehavior)
    ensures
        r@ == 0x40,
{
    proof {
        lemma_behavior_known();
    }
    SyntaxBehavior { bits: 0x40 }
}

/// only named groups capture where the pattern names one (bit 7)
#[allow(non_snake_case)]
pub fn SYNTAX_BEHAVIOR_CAPTURE_ONLY_NAMED_GROUP() -> (r: SyntaxBehavior)
    ensures
        r@ == 0x80,
{
    proof {
        lemma_behavior_known();
    }
    SyntaxBehavior { bits: 0x80 }
}

/// `(?<x>)(?<x>)` (bit 8)
#[allow(non_snake_case)]
pub fn SYNTAX_BEHAVIOR_ALLOW_MULTIPLEX_DEFINITION_NAME() -> (r: SyntaxBehavior)
    ensures
        r@ == 0x100,
{
    proof {
        lemma_behavior_known();
    }
    SyntaxBehavior { bits: 0x100 }
}

/// `a{n}?=(?:a{n})?` (bit 9)
#[allow(non_snake_case)]
pub fn SYNTAX_BEHAVIOR_FIXED_INTERVAL_IS_GREEDY_ONLY() -> (r: SyntaxBehavior)
    ensures
        r@ == 0x200,
{
    proof {
        lemma_behavior_known();
    }
    SyntaxBehavior { bits: 0x200 }
}

/// `[^...]` (bit 20)
#[allow(non_snake_case)]
pub fn SYNTAX_BEHAVIOR_NOT_NEWLINE_IN_NEGATIVE_CC() -> (r: SyntaxBehavior)
    ensures
        r@ == 0x100000,
{
    proof {
        lemma_behavior_known();
    }
    SyntaxBehavior { bits: 0x100000 }
}

/// `[..\w..]` etc. (bit 21)
#[allow(non_snake_case)]
pub fn SYNTAX_BEHAVIOR_BACKSLASH_ESCAPE_IN_CC() -> (r: SyntaxBehavior)
    ensures
        r@ == 0x200000,
{
    proof {
        lemma_behavior_known();
    }
    SyntaxBehavior { bits: 0x200000 }
}

/// `[0-9-a]=[0-9\-a]` (bit 23)
#[allow(non_snake_case)]
pub fn SYNTAX_BEHAVIOR_ALLOW_DOUBLE_RANGE_OP_IN_CC() -> (r: SyntaxBehavior)
    ensures
        r@ == 0x800000,
{
    proof {
        lemma_behavior_known();
    }
    SyntaxBehavior { bits: 0x800000 }
}

/// `[,-,]` (bit 24)
#[allow(non_snake_case)]
pub fn SYNTAX_BEHAVIOR_WARN_CC_OP_NOT_ESCAPED() -> (r: SyntaxBehavior)
    ensures
        r@ == 0x1000000,
{
    proof {
        lemma_behavior_known();
    }
    SyntaxBehavior { bits: 0x1000000 }
}

/// `(?:a*)+` (bit 25)
#[allow(non_snake_case)]
pub fn SYNTAX_BEHAVIOR_WARN_REDUNDANT_NESTED_REPEAT() -> (r: SyntaxBehavior)
    ensures
        r@ == 0x2000000,
{
    proof {
        lemma_behavior_known();
    }
    SyntaxBehavior { bits: 0x2000000 }
}

impl SyntaxBehavior {
    #[verifier::type_invariant]
    spec fn known_bits_only(self) -> bool {
        self.bits & !SYNTAX_BEHAVIOR_ALL_BITS == 0
    }

    /// The flags as a bit pattern: flag `f` is in the set when `self@ & f == f`.
    pub closed spec fn view(&self) -> u32 {
        self.bits
    }

    /// Whether `bits` sets nothing but flags this type names.
    pub open spec fn known(bits: u32) -> bool {
        bits & !SYNTAX_BEHAVIOR_ALL_BITS == 0
    }

    /// The set without any flag.
    pub fn empty() -> (r: SyntaxBehavior)
        ensures
            r@ == 0,
    {
        proof {
            lemma_behavior_known();
        }
        SyntaxBehavior { bits: 0 }
    }

    /// The set of every flag.
    pub fn all() -> (r: SyntaxBehavior)
        ensures
            r@ == SYNTAX_BEHAVIOR_ALL_BITS,
    {
        proof {
            lemma_behavior_known();
        }
        SyntaxBehavior { bits: SYNTAX_BEHAVIOR_ALL_BITS }
    }

    /// The raw bit pattern.
    pub fn bits(&self) -> (r: u32)
        ensures
            r == self@,
            Self::known(r),
    {
        proof {
            use_type_invariant(self);
        }
        self.bits
    }

    /// The set with exactly the bits of `bits`, unless one of them names no flag.
    pub fn from_bits(bits: u32) -> (r: Option<SyntaxBehavior>)
        ensures
            Self::known(bits) ==> r is Some && r->Some_0@ == bits,
            !Self::known(bits) ==> r is None,
    {
        if bits & !SYNTAX_BEHAVIOR_ALL_BITS == 0 {
            Some(SyntaxBehavior { bits })
        } else {
            None
        }
    }

    /// The set of the flags in `bits`; bits that name no flag are dropped.
    pub fn from_bits_truncate(bits: u32) -> (r: SyntaxBehavior)
        ensures
            r@ == bits & SYNTAX_BEHAVIOR_ALL_BITS,
            Self::known(bits) ==> r@ == bits,
    {
        proof {
            lemma_behavior_truncated(bits);
        }
        SyntaxBehavior { bits: bits & SYNTAX_BEHAVIOR_ALL_BITS }
    }

    /// Whether no flag is set.
    pub fn is_empty(&self) -> (r: bool)
        ensures
            r == (self@ == 0),
    {
        self.bits == 0
    }

    /// Whether every flag is set.
    pub fn is_all(&self) -> (r: bool)
        ensures
            r == (self@ == SYNTAX_BEHAVIOR_ALL_BITS),
    {
        self.bits == SYNTAX_BEHAVIOR_ALL_BITS
    }

    /// Whether the two sets share a flag.
    pub fn intersects(&self, other: SyntaxBehavior) -> (r: bool)
        ensures
            r == (self@ & other@ != 0),
    {
        self.bits & other.bits != 0
    }

    /// Whether every flag of `other` is set in `self`.
    pub fn contains(&self, other: SyntaxBehavior) -> (r: bool)
        ensures
            r == (self@ & other@ == other@),
            r == (other@ & !self@ == 0),
    {
        proof {
            use_type_invariant(self);
            use_type_invariant(&other);
            lemma_behavior_closed(self.bits, other.bits);
        }
        self.bits & other.bits == other.bits
    }

    /// Adds the flags of `other`.
    pub fn insert(&mut self, other: SyntaxBehavior)
        ensures
            final(self)@ == old(self)@ | other@,
    {
        proof {
            use_type_invariant(&*self);
            use_type_invariant(&other);
            lemma_behavior_closed(self.bits, other.bits);
        }
        self.bits = self.bits | other.bits;
    }

    /// Removes the flags of `other`.
    pub fn remove(&mut self, other: SyntaxBehavior)
        ensures
            final(self)@ == old(self)@ & !other@,
    {
        proof {
            use_type_invariant(&*self);
            use_type_invariant(&other);
            lemma_behavior_closed(self.bits, other.bits);
        }
        self.bits = self.bits & !other.bits;
    }

    /// Flips the flags of `other`.
    pub fn toggle(&mut self, other: SyntaxBehavior)
        ensures
            final(self)@ == old(self)@ ^ other@,
    {
        proof {
            use_type_invariant(&*self);
            use_type_invariant(&other);
            lemma_behavior_closed(self.bits, other.bits);
        }
        self.bits = self.bits ^ other.bits;
    }
}

impl vstd::std_specs::ops::BitOrSpecImpl for SyntaxBehavior {
    open spec fn obeys_bitor_spec() -> bool {
        true
    }

    open spec fn bitor_req(self, rhs: SyntaxBehavior) -> bool {
        true
    }

    closed spec fn bitor_spec(self, rhs: SyntaxBehavior) -> SyntaxBehavior {
        SyntaxBehavior { bits: self.bits | rhs.bits }
    }
}

/// `a | b` holds the flags of either set.
impl core::ops::BitOr for SyntaxBehavior {
    type Output = SyntaxBehavior;

    fn bitor(self, rhs: SyntaxBehavior) -> (r: SyntaxBehavior)
        ensures
            r@ == self@ | rhs@,
    {
        proof {
            use_type_invariant(&self);
            use_type_invariant(&rhs);
            lemma_behavior_closed(self.bits, rhs.bits);
        }
        SyntaxBehavior { bits: self.bits | rhs.bits }
    }
}

impl vstd::std_specs::ops::BitAndSpecImpl for SyntaxBehavior {
    open spec fn obeys_bitand_spec() -> bool {
        true
    }

    open spec fn bitand_req(self, rhs: SyntaxBehavior) -> bool {
        true
    }

    closed spec fn bitand_spec(self, rhs: SyntaxBehavior) -> SyntaxBehavior {
        SyntaxBehavior { bits: self.bits & rhs.bits }
    }
}

/// `a & b` holds the flags common to both sets.
impl core::ops::BitAnd for SyntaxBehavior {
    type Output = SyntaxBehavior;

    fn bitand(self, rhs: SyntaxBehavior) -> (r: SyntaxBehavior)
        ensures
            r@ == self@ & rhs@,
    {
        proof {
            use_type_invariant(&self);
            use_type_invariant(&rhs);
            lemma_behavior_closed(self.bits, rhs.bits);
        }
        SyntaxBehavior { bits: self.bits & rhs.bits }
    }
}

impl vstd::std_specs::ops::BitXorSpecImpl for SyntaxBehavior {
    open spec fn obeys_bitxor_spec() -> bool {
        true
    }

    open spec fn bitxor_req(self, rhs: SyntaxBehavior) -> bool {
        true
    }

    closed spec fn bitxor_spec(self, rhs: SyntaxBehavior) -> SyntaxBehavior {
        SyntaxBehavior { bits: self.bits ^ rhs.bits }
    }
}

/// `a ^ b` holds the flags set in exactly one of the sets.
impl core::ops::BitXor for SyntaxBehavior {
    type Output = SyntaxBehavior;

    fn bitxor(self, rhs: SyntaxBehavior) -> (r: SyntaxBehavior)
        ensures
            r@ == self@ ^ rhs@,
    {
        proof {
            use_type_invariant(&self);
            use_type_invariant(&rhs);
            lemma_behavior_closed(self.bits, rhs.bits);
        }
        SyntaxBehavior { bits: self.bits ^ rhs.bits }
    }
}

impl vstd::std_specs::ops::SubSpecImpl for SyntaxBehavior {
    open spec fn obeys_sub_spec() -> bool {
        true
    }

    open spec fn sub_req(self, rhs: SyntaxBehavior) -> bool {
        true
    }

    closed spec fn sub_spec(self, rhs: SyntaxBehavior) -> SyntaxBehavior {
        SyntaxBehavior { bits: self.bits & !rhs.bits }
    }
}

/// `a - b` holds the flags of `a` that `b` lacks.
impl core::ops::Sub for SyntaxBehavior {
    type Output = SyntaxBehavior;

    fn sub(self, rhs: SyntaxBehavior) -> (r: SyntaxBehavior)
        ensures
            r@ == self@ & !rhs@,
    {
        proof {
            use_type_invariant(&self);
            use_type_invariant(&rhs);
            lemma_behavior_closed(self.bits, rhs.bits);
        }
        SyntaxBehavior { bits: self.bits & !rhs.bits }
    }
}

impl vstd::std_specs::ops::NotSpecImpl for SyntaxBehavior {
    open spec fn obeys_not_spec() -> bool {
        true
    }

    open spec fn not_req(self) -> bool {
        true
    }

    closed spec fn not_spec(self) -> SyntaxBehavior {
        SyntaxBehavior { bits: !self.bits & SYNTAX_BEHAVIOR_ALL_BITS }
    }
}

/// `!a` holds the flags that `a` lacks.
impl core::ops::Not for SyntaxBehavior {
    type Output = SyntaxBehavior;

    fn not(self) -> (r: SyntaxBehavior)
        ensures
            r@ == !self@ & SYNTAX_BEHAVIOR_ALL_BITS,
    {
        proof {
            use_type_invariant(&self);
            lemma_behavior_closed(self.bits, self.bits);
        }
        SyntaxBehavior { bits: !self.bits & SYNTAX_BEHAVIOR_ALL_BITS }
    }
}

} // verus!
