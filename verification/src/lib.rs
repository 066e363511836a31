//! Verified core of a binding to the Oniguruma regular expression engine.
//!
//! The engine compiles patterns and does the matching. This library is the
//! layer between it and an application: the options and dialects that a
//! compilation can be given, what exactly is asked of the engine, what each of
//! its answers means, the region that a search fills and the captures that are
//! read from it. The engine itself is not called from here; whoever calls it
//! hands its answers over as plain values.
//!
//! Example of usage, with the answers that the engine gives for the pattern
//! `e(l+)` and the text `hello`:
//!
//! ```rust
//! use oniguruma::{CompileReply, OnigRegion, Regex, SearchReply};
//!
//! let compiled = CompileReply {
//!     code: 0,
//!     reg: 1,
//!     num_captures: 1,
//!     num_names: 0,
//!     num_capture_histories: 0,
//! };
//! let regex = Regex::new("e(l+)").finish(compiled).unwrap();
//! let found = SearchReply {
//!     status: 1,
//!     region: OnigRegion { num_regs: 2, beg: vec![1, 2], end: vec![4, 4], history_root: None },
//! };
//! let captures = regex.captures("hello", found).unwrap().unwrap();
//! let mut groups = captures.iter_pos();
//! let mut i = 0;
//! while let Some(pos) = groups.next() {
//!     match pos {
//!         Some((beg, end)) => println!("Group {} captured in position {}:{}", i, beg, end),
//!         None => println!("Group {} is not captured", i),
//!     }
//!     i += 1;
//! }
//! ```

pub mod captures;
pub mod encoding;
pub mod error;
pub mod ll;
pub mod options;
pub mod regex;
pub mod region;
pub mod syntax;
pub mod syntax_behavior;
pub mod syntax_operator;

pub use captures::{Captures, SubCaptures, SubCapturesPos};
pub use encoding::{Encoding, ENCODING_UTF8};
pub use error::{Error, Fault};
pub use ll::{
    CompileReply, CompileRequest, MatchRequest, OnigRegion, SearchReply, SearchRequest,
    ONIG_MAX_ERROR_MESSAGE_LEN, ONIG_MISMATCH, ONIG_NORMAL,
};
pub use options::{
    Options, OPTION_CAPTURE_GROUP, OPTION_DONT_CAPTURE_GROUP, OPTION_EXTEND, OPTION_FIND_LONGEST,
    OPTION_FIND_NOT_EMPTY, OPTION_IGNORECASE, OPTION_MULTILINE, OPTION_NEGATE_SINGLELINE,
    OPTION_NONE, OPTION_NOTBOL, OPTION_NOTEOL, OPTION_SINGLELINE,
};
pub use regex::{Regex, RegexConfig};
pub use region::{CaptureTreeNode, CaptureTreeNodeIter, Region};
pub use syntax::{
    MetaCharTable, Syntax, SyntaxChoice, SyntaxFields, SyntaxPreset, SYNTAX_ASIS, SYNTAX_EMACS,
    SYNTAX_GNU_REGEX, SYNTAX_GREP, SYNTAX_JAVA, SYNTAX_PERL, SYNTAX_PERL_NG, SYNTAX_POSIX_BASIC,
    SYNTAX_POSIX_EXTENDED, SYNTAX_RUBY,
};
pub use syntax_behavior::{
    SyntaxBehavior, SYNTAX_BEHAVIOR_ALLOW_DOUBLE_RANGE_OP_IN_CC,
    SYNTAX_BEHAVIOR_ALLOW_INTERVAL_LOW_ABBREV, SYNTAX_BEHAVIOR_ALLOW_INVALID_INTERVAL,
    SYNTAX_BEHAVIOR_ALLOW_MULTIPLEX_DEFINITION_NAME, SYNTAX_BEHAVIOR_ALLOW_UNMATCHED_CLOSE_SUBEXP,
    SYNTAX_BEHAVIOR_BACKSLASH_ESCAPE_IN_CC, SYNTAX_BEHAVIOR_CAPTURE_ONLY_NAMED_GROUP,
    SYNTAX_BEHAVIOR_CONTEXT_INDEP_REPEAT_OPS, SYNTAX_BEHAVIOR_CONTEXT_INVALID_REPEAT_OPS,
    SYNTAX_BEHAVIOR_DIFFERENT_LEN_ALT_LOOK_BEHIND, SYNTAX_BEHAVIOR_FIXED_INTERVAL_IS_GREEDY_ONLY,
    SYNTAX_BEHAVIOR_NOT_NEWLINE_IN_NEGATIVE_CC, SYNTAX_BEHAVIOR_STRICT_CHECK_BACKREF,
    SYNTAX_BEHAVIOR_WARN_CC_OP_NOT_ESCAPED, SYNTAX_BEHAVIOR_WARN_REDUNDANT_NESTED_REPEAT,
};
pub use syntax_operator::{
    SyntaxOperator, SYNTAX_OPERATOR_ASTERISK_ZERO_INF, SYNTAX_OPERATOR_ATMARK_CAPTURE_HISTORY,
    SYNTAX_OPERATOR_BRACE_INTERVAL, SYNTAX_OPERATOR_BRACKET_CC, SYNTAX_OPERATOR_CCLASS_SET_OP,
    SYNTAX_OPERATOR_DECIMAL_BACKREF, SYNTAX_OPERATOR_DOT_ANYCHAR,
    SYNTAX_OPERATOR_ESC_AZ_BUF_ANCHOR, SYNTAX_OPERATOR_ESC_BRACE_INTERVAL,
    SYNTAX_OPERATOR_ESC_B_WORD_BOUND, SYNTAX_OPERATOR_ESC_CAPITAL_C_BAR_CONTROL,
    SYNTAX_OPERATOR_ESC_CAPITAL_G_BEGIN_ANCHOR, SYNTAX_OPERATOR_ESC_CAPITAL_M_BAR_META,
    SYNTAX_OPERATOR_ESC_CAPITAL_Q_QUOTE, SYNTAX_OPERATOR_ESC_CONTROL_CHARS,
    SYNTAX_OPERATOR_ESC_C_CONTROL, SYNTAX_OPERATOR_ESC_D_DIGIT,
    SYNTAX_OPERATOR_ESC_GNU_BUF_ANCHOR, SYNTAX_OPERATOR_ESC_G_SUBEXP_CALL,
    SYNTAX_OPERATOR_ESC_H_XDIGIT, SYNTAX_OPERATOR_ESC_K_NAMED_BACKREF,
    SYNTAX_OPERATOR_ESC_LPAREN_SUBEXP, SYNTAX_OPERATOR_ESC_LTGT_WORD_BEGIN_END,
    SYNTAX_OPERATOR_ESC_OCTAL3, SYNTAX_OPERATOR_ESC_P_BRACE_CHAR_PROPERTY,
    SYNTAX_OPERATOR_ESC_P_BRACE_CIRCUMFLEX_NOT, SYNTAX_OPERATOR_ESC_S_WHITE_SPACE,
    SYNTAX_OPERATOR_ESC_U_HEX4, SYNTAX_OPERATOR_ESC_VBAR_ALT, SYNTAX_OPERATOR_ESC_V_VTAB,
    SYNTAX_OPERATOR_ESC_W_WORD, SYNTAX_OPERATOR_ESC_X_BRACE_HEX8, SYNTAX_OPERATOR_ESC_X_HEX2,
    SYNTAX_OPERATOR_INEFFECTIVE_ESCAPE, SYNTAX_OPERATOR_LINE_ANCHOR,
    SYNTAX_OPERATOR_LPAREN_SUBEXP, SYNTAX_OPERATOR_OPTION_PERL, SYNTAX_OPERATOR_OPTION_RUBY,
    SYNTAX_OPERATOR_PLUS_ONE_INF, SYNTAX_OPERATOR_PLUS_POSSESSIVE_INTERVAL,
    SYNTAX_OPERATOR_PLUS_POSSESSIVE_REPEAT, SYNTAX_OPERATOR_POSIX_BRACKET,
    SYNTAX_OPERATOR_QMARK_GROUP_EFFECT, SYNTAX_OPERATOR_QMARK_LT_NAMED_GROUP,
    SYNTAX_OPERATOR_QMARK_NON_GREEDY, SYNTAX_OPERATOR_QMARK_ZERO_ONE, SYNTAX_OPERATOR_VBAR_ALT,
};
