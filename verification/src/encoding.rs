//! Character encodings of patterns and texts.

use vstd::prelude::*;

verus! {

/// The encoding in which the engine reads a pattern and a text.
#[derive(Clone, Copy, Debug, PartialEq, Eq, Structural)]
pub enum Encoding {
    /// UTF-8, the encoding of every `str`.
    Utf8,
}

/// The encoding that every pattern of this library is compiled with.
pub const ENCODING_UTF8: Encoding = Encoding::Utf8;

} // verus!
