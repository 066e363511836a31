//! Failures of the engine, before and after the engine has put them in words.

use vstd::prelude::*;
use vstd::slice::slice_subrange;
use vstd::string::StringExecFns;
use vstd::string::StringSliceAdditionalSpecFns;
use vstd::utf8::decode_utf8;
use vstd::utf8::decode_utf8_encode_utf8;
use vstd::utf8::encode_utf8_decode_utf8;
use vstd::utf8::valid_utf8;
use crate::ll::ONIG_MAX_ERROR_MESSAGE_LEN;
use crate::ll::ONIG_NORMAL;

verus! {

/// Why a reply of the engine yields no result.
///
/// A fault with a code is turned into an [`Error`] by asking the engine for the
/// message of that code and handing the message to [`Error::new`].
#[derive(Clone, Copy, Debug, PartialEq, Eq, Structural)]
pub enum Fault {
    /// The engine refused the pattern. Its message is asked for together with
    /// the error information that the compilation filled in, so that it names
    /// the part of the pattern at fault.
    Compile { code: i32 },
    /// The engine failed during a search or a match. Its message is asked for
    /// without error information.
    Engine { code: i32 },
    /// The reply is not one that the engine's interface allows.
    Malformed,
}

impl Fault {
    /// The engine's error code, where the fault has one.
    pub open spec fn spec_code(&self) -> Option<i32> {
        match self {
            Fault::Compile { code } => Some(*code),
            Fault::Engine { code } => Some(*code),
            Fault::Malformed => None,
        }
    }

    /// The engine's error code, where the fault has one.
    pub fn code(&self) -> (r: Option<i32>)
        ensures
            r == self.spec_code(),
    {
        match self {
            Fault::Compile { code } => Some(*code),
            Fault::Engine { code } => Some(*code),
            Fault::Malformed => None,
        }
    }

    /// Whether the message of the fault is asked for together with the error
    /// information of a compilation.
    pub fn has_context(&self) -> (r: bool)
        ensures
            r == (*self is Compile),
    {
        match self {
            Fault::Compile { .. } => true,
            _ => false,
        }
    }
}

/// The cause for which `core::str::from_utf8` refuses a byte slice. Nothing is
/// read from it.
#[verifier::external_type_specification]
#[verifier::external_body]
pub struct ExUtf8Error(core::str::Utf8Error);

/// `core::str::from_utf8` succeeds if and only if `v` is well-formed UTF-8.
/// The string slice that it then returns has exactly the bytes of `v`.
pub assume_specification[ core::str::from_utf8 ](v: &[u8]) -> (r: Result<
    &str,
    core::str::Utf8Error,
>)
    ensures
        r is Ok <==> valid_utf8(v@),
        r matches Ok(s) ==> s.spec_bytes() == v@,
;

/// An error that occurred during parsing, compiling or evaluating a regular
/// expression: the engine's code and the engine's message for it.
#[derive(Debug)]
pub struct Error {
    error: i32,
    description: String,
}

impl Error {
    #[verifier::type_invariant]
    spec fn described(self) -> bool {
        self.error != ONIG_NORMAL && self.description@.len() > 0
    }

    /// The engine's error code.
    pub closed spec fn spec_code(&self) -> i32 {
        self.error
    }

    /// The engine's message.
    pub closed spec fn spec_description(&self) -> Seq<char> {
        self.description@
    }

    /// Whether the first `written` bytes of `buffer` are a message: at least
    /// one byte and at most as many as the engine's buffer holds, all of them
    /// within `buffer`, and well-formed UTF-8.
    pub open spec fn spec_message(buffer: Seq<u8>, written: i32) -> bool {
        &&& 0 < written <= buffer.len()
        &&& written <= ONIG_MAX_ERROR_MESSAGE_LEN
        &&& valid_utf8(buffer.subrange(0, written as int))
    }

    /// The error for the engine's code `error`, described by the message that
    /// the engine wrote for that code into `buffer`. `written` is the length
    /// that the engine returned; no byte beyond it is read, and `buffer` need
    /// not end in a zero byte.
    ///
    /// There is an error if and only if `error` is not the code for success
    /// and the first `written` bytes of `buffer` are a message.
    pub fn new(error: i32, buffer: &[u8], written: i32) -> (r: Option<Error>)
        ensures
            r is Some <==> error != ONIG_NORMAL && Self::spec_message(buffer@, written),
            r matches Some(e) ==> {
                &&& e.spec_code() == error
                &&& e.spec_description() == decode_utf8(buffer@.subrange(0, written as int))
                &&& e.spec_description().len() > 0
            },
    {
        if error == ONIG_NORMAL || written <= 0 {
            return None;
        }
        let len = written as usize;
        if len > buffer.len() || len > ONIG_MAX_ERROR_MESSAGE_LEN {
            return None;
        }
        let bytes = slice_subrange(buffer, 0, len);
        match core::str::from_utf8(bytes) {
            Err(_) => None,
            Ok(text) => {
                proof {
                    encode_utf8_decode_utf8(text@);
                    lemma_message_has_chars(bytes@);
                }
                Some(Error { error, description: String::from_str(text) })
            },
        }
    }

    /// Return Oniguruma engine error code.
    pub fn code(&self) -> (r: isize)
        ensures
            r == self.spec_code(),
            r != 0,
    {
        proof {
            use_type_invariant(self);
        }
        self.error as isize
    }

    /// The engine's message for the error. It is never empty.
    pub fn description(&self) -> (r: &str)
        ensures
            r@ == self.spec_description(),
            r@.len() > 0,
    {
        proof {
            use_type_invariant(self);
        }
        self.description.as_str()
    }

    /// The error as a line for a reader: the words `Oniguruma error: ` and the
    /// engine's message.
    pub fn to_string(&self) -> (r: String)
        ensures
            r@ == "Oniguruma error: "@ + self.spec_description(),
    {
        let mut line = String::from_str("Oniguruma error: ");
        line.append(self.description.as_str());
        line
    }
}

/// Well-formed UTF-8 of at least one byte holds at least one character.
proof fn lemma_message_has_chars(bytes: Seq<u8>)
    requires
        valid_utf8(bytes),
        bytes.len() > 0,
    ensures
        decode_utf8(bytes).len() > 0,
{
    decode_utf8_encode_utf8(bytes);
    if decode_utf8(bytes).len() == 0 {
        assert(vstd::utf8::encode_utf8(decode_utf8(bytes)) =~= Seq::<u8>::empty());
    }
}

} // verus!
