use oniguruma::{
    MetaCharTable, Options, Syntax, SyntaxBehavior, SyntaxFields, SyntaxOperator,
    OPTION_CAPTURE_GROUP, OPTION_DONT_CAPTURE_GROUP, OPTION_EXTEND, OPTION_FIND_LONGEST,
    OPTION_FIND_NOT_EMPTY, OPTION_IGNORECASE, OPTION_MULTILINE, OPTION_NEGATE_SINGLELINE,
    OPTION_NONE, OPTION_NOTBOL, OPTION_NOTEOL, OPTION_SINGLELINE,
    SYNTAX_BEHAVIOR_ALLOW_INTERVAL_LOW_ABBREV, SYNTAX_BEHAVIOR_CONTEXT_INDEP_REPEAT_OPS,
    SYNTAX_BEHAVIOR_STRICT_CHECK_BACKREF, SYNTAX_BEHAVIOR_WARN_REDUNDANT_NESTED_REPEAT,
    SYNTAX_OPERATOR_ATMARK_CAPTURE_HISTORY, SYNTAX_OPERATOR_DOT_ANYCHAR,
    SYNTAX_OPERATOR_ESC_CAPITAL_Q_QUOTE, SYNTAX_OPERATOR_ESC_X_BRACE_HEX8,
    SYNTAX_OPERATOR_INEFFECTIVE_ESCAPE, SYNTAX_OPERATOR_QMARK_LT_NAMED_GROUP,
};

fn syntax(op: u32, op2: u32, behavior: u32, options: u32) -> Syntax {
    Syntax::from_fields(SyntaxFields {
        op,
        op2,
        behavior,
        options,
        meta_char_table: MetaCharTable {
            esc: 0x5c,
            anychar: 0x2e,
            anytime: 0x2a,
            zero_or_one_time: 0x3f,
            one_or_more_time: 0x2b,
            anychar_anytime: 0,
        },
    })
}

#[test]
fn options_have_the_bits_of_the_engine() {
    assert_eq!(OPTION_NONE().bits(), 0);
    assert_eq!(OPTION_IGNORECASE().bits(), 1);
    assert_eq!(OPTION_EXTEND().bits(), 2);
    assert_eq!(OPTION_MULTILINE().bits(), 4);
    assert_eq!(OPTION_SINGLELINE().bits(), 8);
    assert_eq!(OPTION_FIND_LONGEST().bits(), 16);
    assert_eq!(OPTION_FIND_NOT_EMPTY().bits(), 32);
    assert_eq!(OPTION_NEGATE_SINGLELINE().bits(), 64);
    assert_eq!(OPTION_DONT_CAPTURE_GROUP().bits(), 128);
    assert_eq!(OPTION_CAPTURE_GROUP().bits(), 256);
    assert_eq!(OPTION_NOTBOL().bits(), 512);
    assert_eq!(OPTION_NOTEOL().bits(), 1024);
    assert_eq!(Options::all().bits(), 2047);
    assert_eq!(Options::empty(), OPTION_NONE());
}

#[test]
fn options_combine_as_sets() {
    let both = OPTION_NOTBOL() | OPTION_NOTEOL();
    assert_eq!(both.bits(), 1536);
    assert!(both.contains(OPTION_NOTBOL()));
    assert!(both.contains(OPTION_NOTEOL()));
    assert!(!both.contains(OPTION_IGNORECASE()));
    assert!(both.contains(OPTION_NONE()));
    assert!(both.intersects(OPTION_NOTBOL() | OPTION_EXTEND()));
    assert!(!both.intersects(OPTION_EXTEND()));
    assert_eq!((both & OPTION_NOTBOL()).bits(), 512);
    assert_eq!((both - OPTION_NOTBOL()).bits(), 1024);
    assert_eq!((both ^ (OPTION_NOTBOL() | OPTION_EXTEND())).bits(), 1026);
    assert_eq!((!both).bits(), 511);
    assert_eq!((!Options::empty()), Options::all());
    assert!(Options::all().is_all());
    assert!(!both.is_all());
    assert!(Options::empty().is_empty());
    assert!(!both.is_empty());

    let mut set = OPTION_IGNORECASE();
    set.insert(OPTION_MULTILINE());
    assert_eq!(set.bits(), 5);
    set.remove(OPTION_IGNORECASE());
    assert_eq!(set.bits(), 4);
    set.remove(OPTION_IGNORECASE());
    assert_eq!(set.bits(), 4);
    set.toggle(OPTION_MULTILINE() | OPTION_EXTEND());
    assert_eq!(set.bits(), 2);
}

#[test]
fn unknown_bits_are_refused_or_dropped() {
    assert_eq!(Options::from_bits(5).map(|o| o.bits()), Some(5));
    assert_eq!(Options::from_bits(2047).map(|o| o.bits()), Some(2047));
    assert_eq!(Options::from_bits(2048), None);
    assert_eq!(Options::from_bits(u32::MAX), None);
    assert_eq!(Options::from_bits_truncate(2048 + 5).bits(), 5);
    assert_eq!(Options::from_bits_truncate(u32::MAX).bits(), 2047);

    assert_eq!(SyntaxOperator::from_bits(1), None);
    assert_eq!(SyntaxOperator::from_bits(1 << 31), None);
    assert_eq!(SyntaxOperator::from_bits(1 << 50), None);
    assert_eq!(SyntaxOperator::from_bits(1 << 53), None);
    assert_eq!(SyntaxOperator::from_bits(2).map(|o| o.bits()), Some(2));
    assert_eq!(SyntaxOperator::from_bits_truncate(3).bits(), 2);
    assert_eq!(SyntaxOperator::from_bits_truncate(u64::MAX), SyntaxOperator::all());
    assert_eq!(SyntaxOperator::all().bits(), 0x001b_ffff_7fff_ff56);

    assert_eq!(SyntaxBehavior::from_bits(1 << 10), None);
    assert_eq!(SyntaxBehavior::from_bits(1 << 22), None);
    assert_eq!(SyntaxBehavior::from_bits(1 << 26), None);
    assert_eq!(SyntaxBehavior::from_bits_truncate(u32::MAX), SyntaxBehavior::all());
    assert_eq!(SyntaxBehavior::all().bits(), 0x03b0_03ff);
}

#[test]
fn operators_lie_in_two_words() {
    assert_eq!(SYNTAX_OPERATOR_DOT_ANYCHAR().bits(), 1 << 1);
    assert_eq!(SYNTAX_OPERATOR_ESC_X_BRACE_HEX8().bits(), 1 << 30);
    assert_eq!(SYNTAX_OPERATOR_ESC_CAPITAL_Q_QUOTE().bits(), 1 << 32);
    assert_eq!(SYNTAX_OPERATOR_QMARK_LT_NAMED_GROUP().bits(), 1 << 39);
    assert_eq!(SYNTAX_OPERATOR_ATMARK_CAPTURE_HISTORY().bits(), 1 << 42);
    assert_eq!(SYNTAX_OPERATOR_INEFFECTIVE_ESCAPE().bits(), 1 << 52);
    assert_eq!(SYNTAX_BEHAVIOR_CONTEXT_INDEP_REPEAT_OPS().bits(), 1);
    assert_eq!(SYNTAX_BEHAVIOR_ALLOW_INTERVAL_LOW_ABBREV().bits(), 1 << 4);
    assert_eq!(SYNTAX_BEHAVIOR_STRICT_CHECK_BACKREF().bits(), 1 << 5);
    assert_eq!(SYNTAX_BEHAVIOR_WARN_REDUNDANT_NESTED_REPEAT().bits(), 1 << 25);
}

#[test]
fn get_operators_joins_the_two_words() {
    let s = syntax(0x0000_0006, 0x0000_0401, 0, 0);
    let ops = s.get_operators();
    assert_eq!(ops.bits(), 0x0000_0401_0000_0006);
    assert!(ops.contains(SYNTAX_OPERATOR_DOT_ANYCHAR()));
    assert!(ops.contains(SYNTAX_OPERATOR_ATMARK_CAPTURE_HISTORY()));
    assert!(ops.contains(SYNTAX_OPERATOR_ESC_CAPITAL_Q_QUOTE()));
    assert!(!ops.contains(SYNTAX_OPERATOR_QMARK_LT_NAMED_GROUP()));
    // Bits that name no operator are left out.
    let s = syntax(0xffff_ffff, 0xffff_ffff, 0, 0);
    assert_eq!(s.get_operators(), SyntaxOperator::all());
}

#[test]
fn set_operators_splits_into_the_two_words() {
    let mut s = syntax(0xffff_ffff, 0xffff_ffff, 7, 9);
    s.set_operators(SYNTAX_OPERATOR_DOT_ANYCHAR() | SYNTAX_OPERATOR_ATMARK_CAPTURE_HISTORY());
    let fields = s.fields();
    assert_eq!(fields.op, 2);
    assert_eq!(fields.op2, 0x400);
    assert_eq!(fields.behavior, 7);
    assert_eq!(fields.options, 9);
    assert_eq!(fields.meta_char_table.esc, 0x5c);
    assert_eq!(
        s.get_operators(),
        SYNTAX_OPERATOR_DOT_ANYCHAR() | SYNTAX_OPERATOR_ATMARK_CAPTURE_HISTORY()
    );
}

#[test]
fn enable_and_disable_change_the_named_operators_only() {
    let mut s = syntax(0x0000_0006, 0x0000_0001, 3, 8);
    s.enable_operators(SYNTAX_OPERATOR_ATMARK_CAPTURE_HISTORY());
    assert_eq!(s.get_operators().bits(), 0x0000_0401_0000_0006);
    assert_eq!(s.fields().op, 6);
    assert_eq!(s.fields().op2, 0x401);
    s.enable_operators(SYNTAX_OPERATOR_ATMARK_CAPTURE_HISTORY());
    assert_eq!(s.get_operators().bits(), 0x0000_0401_0000_0006);
    s.disable_operators(SYNTAX_OPERATOR_DOT_ANYCHAR() | SYNTAX_OPERATOR_ESC_CAPITAL_Q_QUOTE());
    assert_eq!(s.get_operators().bits(), 0x0000_0400_0000_0004);
    s.disable_operators(SYNTAX_OPERATOR_QMARK_LT_NAMED_GROUP());
    assert_eq!(s.get_operators().bits(), 0x0000_0400_0000_0004);
    assert_eq!(s.fields().behavior, 3);
    assert_eq!(s.fields().options, 8);
}

#[test]
fn behaviors_are_read_and_written() {
    let mut s = syntax(1, 2, 0x0000_0021, 8);
    assert_eq!(s.get_behaviors().bits(), 0x21);
    assert!(s.get_behaviors().contains(SYNTAX_BEHAVIOR_STRICT_CHECK_BACKREF()));
    s.enable_behaviors(SYNTAX_BEHAVIOR_ALLOW_INTERVAL_LOW_ABBREV());
    assert_eq!(s.get_behaviors().bits(), 0x31);
    s.disable_behaviors(SYNTAX_BEHAVIOR_CONTEXT_INDEP_REPEAT_OPS());
    assert_eq!(s.get_behaviors().bits(), 0x30);
    s.set_behaviors(SYNTAX_BEHAVIOR_WARN_REDUNDANT_NESTED_REPEAT());
    assert_eq!(s.fields().behavior, 1 << 25);
    assert_eq!(s.fields().op, 1);
    assert_eq!(s.fields().op2, 2);
    assert_eq!(s.fields().options, 8);
    let unknown = syntax(0, 0, 1 << 10 | 1, 0);
    assert_eq!(unknown.get_behaviors().bits(), 1);
}

#[test]
fn options_of_a_syntax_are_read_and_written() {
    let mut s = syntax(1, 2, 3, 8);
    assert_eq!(s.get_options(), OPTION_SINGLELINE());
    s.set_options(OPTION_SINGLELINE() | OPTION_MULTILINE());
    assert_eq!(s.fields().options, 12);
    assert_eq!(s.get_options().bits(), 12);
    assert_eq!((s.fields().op, s.fields().op2, s.fields().behavior), (1, 2, 3));
    let unknown = syntax(0, 0, 0, 1 << 11 | 4);
    assert_eq!(unknown.get_options(), OPTION_MULTILINE());
}

#[test]
fn a_clone_is_a_value_of_its_own() {
    let source = syntax(0x0000_0006, 0x0000_0001, 3, 8);
    let mut copy = source.clone();
    assert_eq!(copy.fields(), source.fields());
    copy.enable_operators(SYNTAX_OPERATOR_ATMARK_CAPTURE_HISTORY());
    copy.set_behaviors(SyntaxBehavior::empty());
    copy.set_options(OPTION_NONE());
    assert_eq!(source.fields().op, 6);
    assert_eq!(source.fields().op2, 1);
    assert_eq!(source.fields().behavior, 3);
    assert_eq!(source.fields().options, 8);
    assert_eq!(copy.fields().op2, 0x401);
    assert_eq!(copy.fields().behavior, 0);
    assert_eq!(copy.fields().options, 0);
    let mut third = syntax(0, 0, 0, 0);
    third.clone_from(&source);
    assert_eq!(third.fields(), source.fields());
}
