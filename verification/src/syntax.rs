//! Grammar dialects: the engine's presets by name, and tunable copies by value.

use vstd::prelude::*;
use crate::options::Options;
use crate::options::OPTION_ALL_BITS;
use crate::syntax_behavior::SyntaxBehavior;
use crate::syntax_behavior::SYNTAX_BEHAVIOR_ALL_BITS;
use crate::syntax_operator::SyntaxOperator;
use crate::syntax_operator::SYNTAX_OPERATOR_ALL_BITS;

verus! {

/// A dialect that the engine has built in. A preset is a name: its definition
/// belongs to the engine and cannot be changed through this library.
#[derive(Clone, Copy, Debug, PartialEq, Eq, Structural, Hash)]
pub enum SyntaxPreset {
    /// Plain text syntax
    Asis,
    /// POSIX Basic RE syntax
    PosixBasic,
    /// POSIX Extended RE syntax
    PosixExtended,
    /// Emacs syntax
    Emacs,
    /// Grep syntax
    Grep,
    /// GNU regex syntax
    GnuRegex,
    /// Java (Sun java.util.regex) syntax
    Java,
    /// Perl syntax
    Perl,
    /// Perl + named group syntax
    PerlNg,
    /// Ruby syntax (default)
    Ruby,
}

/// Plain text syntax
pub const SYNTAX_ASIS: SyntaxPreset = SyntaxPreset::Asis;

/// POSIX Basic RE syntax
pub const SYNTAX_POSIX_BASIC: SyntaxPreset = SyntaxPreset::PosixBasic;

/// POSIX Extended RE syntax
pub const SYNTAX_POSIX_EXTENDED: SyntaxPreset = SyntaxPreset::PosixExtended;

/// Emacs syntax
pub const SYNTAX_EMACS: SyntaxPreset = SyntaxPreset::Emacs;

/// Grep syntax
pub const SYNTAX_GREP: SyntaxPreset = SyntaxPreset::Grep;

/// GNU regex syntax
pub const SYNTAX_GNU_REGEX: SyntaxPreset = SyntaxPreset::GnuRegex;

/// Java (Sun java.util.regex) syntax
pub const SYNTAX_JAVA: SyntaxPreset = SyntaxPreset::Java;

/// Perl syntax
pub const SYNTAX_PERL: SyntaxPreset = SyntaxPreset::Perl;

/// Perl + named group syntax
pub const SYNTAX_PERL_NG: SyntaxPreset = SyntaxPreset::PerlNg;

/// Ruby syntax (default)
pub const SYNTAX_RUBY: SyntaxPreset = SyntaxPreset::Ruby;

/// The code points that a syntax with variable meta characters reads as
/// operators.
#[derive(Clone, Copy, Debug, PartialEq, Eq, Structural)]
pub struct MetaCharTable {
    pub esc: u64,
    pub anychar: u64,
    pub anytime: u64,
    pub zero_or_one_time: u64,
    pub one_or_more_time: u64,
    pub anychar_anytime: u64,
}

/// The fields of a syntax definition, as the engine lays them out.
#[derive(Clone, Copy, Debug, PartialEq, Eq, Structural)]
pub struct SyntaxFields {
    /// The first word of operator bits.
    pub op: u32,
    /// The second word of operator bits.
    pub op2: u32,
    /// The behavior bits.
    pub behavior: u32,
    /// The bits of the options that the dialect implies.
    pub options: u32,
    /// The meta character table.
    pub meta_char_table: MetaCharTable,
}

/// The two operator words as one 64-bit pattern, the first word low.
pub open spec fn join_words(op: u32, op2: u32) -> u64 {
    (op as u64) | ((op2 as u64) << 32)
}

/// The low word of a 64-bit pattern.
pub open spec fn low_word(bits: u64) -> u32 {
    (bits & 0xffff_ffff) as u32
}

/// The high word of a 64-bit pattern.
pub open spec fn high_word(bits: u64) -> u32 {
    (bits >> 32) as u32
}

/// Splitting a pattern into its words and joining them again changes nothing,
/// in either order.
pub proof fn lemma_words(bits: u64, op: u32, op2: u32)
    by (bit_vector)
    ensures
        join_words(low_word(bits), high_word(bits)) == bits,
        low_word(join_words(op, op2)) == op,
        high_word(join_words(op, op2)) == op2,
        bits & 0xffff_ffff <= 0xffff_ffff,
        bits >> 32 <= 0xffff_ffff,
{
}

/// A grammar dialect that an application can tune: which operators the engine
/// recognises, which behaviors it follows and which options it implies.
///
/// A `Syntax` is a value of its own. Changing it changes neither the value it
/// was cloned from nor any preset of the engine.
#[derive(Debug)]
pub struct Syntax {
    op: u32,
    op2: u32,
    behavior: u32,
    options: u32,
    meta_char_table: MetaCharTable,
}

impl Clone for Syntax {
    /// A deep copy: every field of the copy equals that of `self`.
    fn clone(&self) -> (r: Syntax)
        ensures
            r@ == self@,
    {
        Syntax {
            op: self.op,
            op2: self.op2,
            behavior: self.behavior,
            options: self.options,
            meta_char_table: MetaCharTable {
                esc: self.meta_char_table.esc,
                anychar: self.meta_char_table.anychar,
                anytime: self.meta_char_table.anytime,
                zero_or_one_time: self.meta_char_table.zero_or_one_time,
                one_or_more_time: self.meta_char_table.one_or_more_time,
                anychar_anytime: self.meta_char_table.anychar_anytime,
            },
        }
    }

    /// Overwrites every field of `self` with that of `source`.
    fn clone_from(&mut self, source: &Syntax)
        ensures
            final(self)@ == source@,
    {
        self.op = source.op;
        self.op2 = source.op2;
        self.behavior = source.behavior;
        self.options = source.options;
        self.meta_char_table = source.meta_char_table;
    }
}

impl Syntax {
    /// The fields of the syntax.
    pub closed spec fn view(&self) -> SyntaxFields {
        SyntaxFields {
            op: self.op,
            op2: self.op2,
            behavior: self.behavior,
            options: self.options,
            meta_char_table: self.meta_char_table,
        }
    }

    /// The operators that the syntax has enabled, as a bit pattern.
    pub open spec fn spec_operators(&self) -> u64 {
        join_words(self@.op, self@.op2) & SYNTAX_OPERATOR_ALL_BITS
    }

    /// The behaviors that the syntax has enabled, as a bit pattern.
    pub open spec fn spec_behaviors(&self) -> u32 {
        self@.behavior & SYNTAX_BEHAVIOR_ALL_BITS
    }

    /// The options that the syntax implies, as a bit pattern.
    pub open spec fn spec_options(&self) -> u32 {
        self@.options & OPTION_ALL_BITS
    }

    /// The syntax with the given fields, such as those read from a preset of
    /// the engine.
    pub fn from_fields(fields: SyntaxFields) -> (r: Syntax)
        ensures
            r@ == fields,
    {
        Syntax {
            op: fields.op,
            op2: fields.op2,
            behavior: fields.behavior,
            options: fields.options,
            meta_char_table: fields.meta_char_table,
        }
    }

    /// The fields of the syntax, to hand to the engine.
    pub fn fields(&self) -> (r: SyntaxFields)
        ensures
            r == self@,
    {
        SyntaxFields {
            op: self.op,
            op2: self.op2,
            behavior: self.behavior,
            options: self.options,
            meta_char_table: self.meta_char_table,
        }
    }

    /// The operators that are enabled. Bits of the two operator words that
    /// name no operator are left out.
    pub fn get_operators(&self) -> (r: SyntaxOperator)
        ensures
            r@ == self.spec_operators(),
    {
        SyntaxOperator::from_bits_truncate((self.op as u64) | ((self.op2 as u64) << 32))
    }

    /// Enables exactly `operators`: the two operator words become the low and
    /// the high word of its bits. Nothing else changes.
    pub fn set_operators(&mut self, operators: SyntaxOperator)
        ensures
            final(self)@ == (SyntaxFields {
                op: low_word(operators@),
                op2: high_word(operators@),
                ..old(self)@
            }),
            final(self).spec_operators() == operators@,
    {
        let bits = operators.bits();
        proof {
            lemma_words(bits, 0, 0);
            lemma_known_is_fixed(bits);
        }
        self.op = (bits & 0xffff_ffff) as u32;
        self.op2 = (bits >> 32) as u32;
    }

    /// Enables `operators` besides those that are enabled.
    pub fn enable_operators(&mut self, operators: SyntaxOperator)
        ensures
            final(self).spec_operators() == old(self).spec_operators() | operators@,
            final(self)@ == (SyntaxFields {
                op: low_word(final(self).spec_operators()),
                op2: high_word(final(self).spec_operators()),
                ..old(self)@
            }),
    {
        let operators = self.get_operators() | operators;
        self.set_operators(operators)
    }

    /// Disables `operators` and leaves the others that are enabled.
    pub fn disable_operators(&mut self, operators: SyntaxOperator)
        ensures
            final(self).spec_operators() == old(self).spec_operators() & !operators@,
            final(self)@ == (SyntaxFields {
                op: low_word(final(self).spec_operators()),
                op2: high_word(final(self).spec_operators()),
                ..old(self)@
            }),
    {
        let operators = self.get_operators() - operators;
        self.set_operators(operators)
    }

    /// The behaviors that are enabled. Bits of the behavior word that name no
    /// behavior are left out.
    pub fn get_behaviors(&self) -> (r: SyntaxBehavior)
        ensures
            r@ == self.spec_behaviors(),
    {
        SyntaxBehavior::from_bits_truncate(self.behavior)
    }

    /// Enables exactly `behaviors`. Nothing else changes.
    pub fn set_behaviors(&mut self, behaviors: SyntaxBehavior)
        ensures
            final(self)@ == (SyntaxFields { behavior: behaviors@, ..old(self)@ }),
            final(self).spec_behaviors() == behaviors@,
    {
        let bits = behaviors.bits();
        proof {
            lemma_known_behavior_is_fixed(bits);
        }
        self.behavior = bits;
    }

    /// Enables `behaviors` besides those that are enabled.
    pub fn enable_behaviors(&mut self, behaviors: SyntaxBehavior)
        ensures
            final(self).spec_behaviors() == old(self).spec_behaviors() | behaviors@,
            final(self)@ == (SyntaxFields {
                behavior: final(self).spec_behaviors(),
                ..old(self)@
            }),
    {
        let behaviors = self.get_behaviors() | behaviors;
        self.set_behaviors(behaviors)
    }

    /// Disables `behaviors` and leaves the others that are enabled.
    pub fn disable_behaviors(&mut self, behaviors: SyntaxBehavior)
        ensures
            final(self).spec_behaviors() == old(self).spec_behaviors() & !behaviors@,
            final(self)@ == (SyntaxFields {
                behavior: final(self).spec_behaviors(),
                ..old(self)@
            }),
    {
        let behaviors = self.get_behaviors() - behaviors;
        self.set_behaviors(behaviors)
    }

    /// The options that the dialect implies. Bits of the options word that
    /// name no option are left out.
    pub fn get_options(&self) -> (r: Options)
        ensures
            r@ == self.spec_options(),
    {
        Options::from_bits_truncate(self.options)
    }

    /// Makes the dialect imply exactly `options`. Nothing else changes.
    pub fn set_options(&mut self, options: Options)
        ensures
            final(self)@ == (SyntaxFields { options: options@, ..old(self)@ }),
            final(self).spec_options() == options@,
    {
        let bits = options.bits();
        proof {
            lemma_known_option_is_fixed(bits);
        }
        self.options = bits;
    }
}

proof fn lemma_known_is_fixed(bits: u64)
    by (bit_vector)
    requires
        bits & !SYNTAX_OPERATOR_ALL_BITS == 0,
    ensures
        bits & SYNTAX_OPERATOR_ALL_BITS == bits,
{
}

proof fn lemma_known_behavior_is_fixed(bits: u32)
    by (bit_vector)
    requires
        bits & !SYNTAX_BEHAVIOR_ALL_BITS == 0,
    ensures
        bits & SYNTAX_BEHAVIOR_ALL_BITS == bits,
{
}

proof fn lemma_known_option_is_fixed(bits: u32)
    by (bit_vector)
    requires
        bits & !OPTION_ALL_BITS == 0,
    ensures
        bits & OPTION_ALL_BITS == bits,
{
}

/// The dialect of a compilation: a preset of the engine, or a syntax of the
/// application.
#[derive(Clone, Copy, Debug)]
pub enum SyntaxChoice<'a> {
    /// One of the engine's presets.
    Preset(SyntaxPreset),
    /// A syntax that the application has built.
    Custom(&'a Syntax),
}

} // verus!
