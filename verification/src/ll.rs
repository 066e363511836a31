//! Plain images of what crosses the boundary to the engine.

use vstd::prelude::*;
use crate::encoding::Encoding;
use crate::options::Options;
use crate::region::CaptureTreeNode;
use crate::region::slot_ordered;
use crate::syntax::SyntaxChoice;

verus! {

/// What the engine returns where nothing went wrong.
pub const ONIG_NORMAL: i32 = 0;

/// What a search or a match returns where the pattern was not found.
pub const ONIG_MISMATCH: i32 = -1;

/// The size of the buffer into which the engine writes an error message.
pub const ONIG_MAX_ERROR_MESSAGE_LEN: usize = 90;

/// Whether a slot lies in a text of `limit` bytes: the group took no part, or
/// its span is ordered and ends within the text.
pub open spec fn slot_within(slot: (i32, i32), limit: usize) -> bool {
    slot.0 < 0 || (slot.0 <= slot.1 && slot.1 <= limit)
}

/// The region as the engine left it after a search or a match: the number of
/// slots, the begin and the end offset of each, and the root of the capture
/// history.
#[derive(Debug)]
pub struct OnigRegion {
    pub num_regs: i32,
    pub beg: Vec<i32>,
    pub end: Vec<i32>,
    pub history_root: Option<CaptureTreeNode>,
}

impl OnigRegion {
    /// The slots, as pairs of begin and end offsets.
    pub open spec fn slots(&self) -> Seq<(i32, i32)> {
        Seq::new(self.beg@.len(), |i: int| (self.beg@[i], self.end@[i]))
    }

    /// Both arrays hold `num_regs` entries.
    pub open spec fn spec_sized(&self) -> bool {
        &&& self.num_regs >= 0
        &&& self.beg@.len() == self.num_regs
        &&& self.end@.len() == self.num_regs
    }

    /// Both arrays hold `num_regs` entries, and every slot is ordered.
    pub open spec fn spec_ordered(&self) -> bool {
        &&& self.spec_sized()
        &&& forall|i: int| 0 <= i < self.slots().len() ==> slot_ordered(#[trigger] self.slots()[i])
    }

    /// Both arrays hold `num_regs` entries, and every slot and every node of
    /// the capture history lies in a text of `limit` bytes.
    pub open spec fn spec_within(&self, limit: usize) -> bool {
        &&& self.spec_sized()
        &&& forall|i: int|
            0 <= i < self.slots().len() ==> slot_within(#[trigger] self.slots()[i], limit)
        &&& self.history_root matches Some(root) ==> root.spec_within(limit)
    }

    /// Whether both arrays hold `num_regs` entries, and every slot and every
    /// node of the capture history lies in a text of `limit` bytes.
    pub fn within(&self, limit: usize) -> (r: bool)
        ensures
            r == self.spec_within(limit),
            r ==> self.spec_ordered(),
    {
        if self.num_regs < 0 {
            return false;
        }
        let n = self.num_regs as usize;
        if self.beg.len() != n || self.end.len() != n {
            return false;
        }
        let mut i: usize = 0;
        while i < n
            invariant
                i <= n,
                n == self.num_regs,
                self.spec_sized(),
                forall|j: int| 0 <= j < i ==> slot_within(#[trigger] self.slots()[j], limit),
            decreases n - i,
        {
            let beg = self.beg[i];
            let end = self.end[i];
            assert(self.slots()[i as int] == (beg, end));
            if beg >= 0 && (end < beg || end as usize > limit) {
                return false;
            }
            i += 1;
        }
        match &self.history_root {
            Some(root) => root.within(limit),
            None => true,
        }
    }
}

/// A compilation for the engine to do: the pattern from its first byte to its
/// last, the options, the encoding of the pattern and the dialect.
#[derive(Clone, Copy, Debug)]
pub struct CompileRequest<'a> {
    pub pattern: &'a str,
    pub options: Options,
    pub encoding: Encoding,
    pub syntax: SyntaxChoice<'a>,
}

/// What the engine has answered to a compilation: the code it returned and the
/// handle of the compiled pattern. Where the code is that of success, the
/// reply also holds what the engine says of the compiled pattern: how many
/// groups capture, how many names it has and how many groups record a capture
/// history.
#[derive(Clone, Copy, Debug)]
pub struct CompileReply {
    pub code: i32,
    pub reg: usize,
    pub num_captures: i32,
    pub num_names: i32,
    pub num_capture_histories: i32,
}

impl CompileReply {
    /// What the engine's interface promises of a success: a handle that is not
    /// null, and no count below zero.
    pub open spec fn spec_sound(&self) -> bool {
        &&& self.reg != 0
        &&& self.num_captures >= 0
        &&& self.num_names >= 0
        &&& self.num_capture_histories >= 0
    }
}

/// A search for the engine to do: with the compiled pattern `reg`, in the
/// whole of `text`, for a match that begins at or after the byte `start` and
/// before the byte `range`.
#[derive(Clone, Copy, Debug)]
pub struct SearchRequest<'t> {
    pub reg: usize,
    pub text: &'t str,
    pub start: usize,
    pub range: usize,
    pub options: Options,
}

/// A match for the engine to try: with the compiled pattern `reg`, in the
/// whole of `text`, for a match that begins at the byte `at`.
#[derive(Clone, Copy, Debug)]
pub struct MatchRequest<'t> {
    pub reg: usize,
    pub text: &'t str,
    pub at: usize,
    pub options: Options,
}

/// What the engine has answered to a search or to a match: the number it
/// returned, and the region as it left it.
///
/// A number of zero or more reports a match: for a search the byte at which
/// the match begins, for a match the length of the match in bytes.
/// [`ONIG_MISMATCH`] reports that there is no match. Any other number is the
/// code of an error.
#[derive(Debug)]
pub struct SearchReply {
    pub status: i32,
    pub region: OnigRegion,
}

impl SearchReply {
    /// What the engine's interface promises of a reply to a search in a text
    /// of `text_len` bytes with a pattern of `captures` capturing groups.
    ///
    /// Of an error it promises nothing. Otherwise the region lies in the
    /// text. Where a match is reported, the number returned is no more than the
    /// length of the text, the region has one slot for the whole match and one
    /// for each capturing group, and the whole match took part.
    pub open spec fn spec_sound(&self, text_len: usize, captures: usize) -> bool {
        self.status >= ONIG_MISMATCH ==> {
            &&& self.region.spec_within(text_len)
            &&& self.status >= 0 ==> {
                &&& self.status <= text_len
                &&& self.region.num_regs == captures + 1
                &&& self.region.beg@[0] >= 0
            }
        }
    }

    /// What the engine's interface promises of a reply to a match that was
    /// tried at the first byte of the text: what it promises of a search, and
    /// that the whole match ends where the length that was returned says.
    pub open spec fn spec_sound_match(&self, text_len: usize, captures: usize) -> bool {
        &&& self.spec_sound(text_len, captures)
        &&& self.status >= 0 ==> self.region.end@[0] == self.status
    }

    /// Whether the reply is one that the engine's interface allows for a
    /// search in a text of `text_len` bytes with a pattern of `captures`
    /// capturing groups.
    pub fn sound(&self, text_len: usize, captures: usize) -> (r: bool)
        ensures
            r == self.spec_sound(text_len, captures),
    {
        if self.status < ONIG_MISMATCH {
            return true;
        }
        if !self.region.within(text_len) {
            return false;
        }
        if self.status < 0 {
            return true;
        }
        if self.status as usize > text_len {
            return false;
        }
        if captures >= i32::MAX as usize || self.region.num_regs as usize != captures + 1 {
            return false;
        }
        self.region.beg[0] >= 0
    }

    /// Whether the reply is one that the engine's interface allows for a match
    /// that was tried at the first byte of a text of `text_len` bytes with a
    /// pattern of `captures` capturing groups.
    pub fn sound_match(&self, text_len: usize, captures: usize) -> (r: bool)
        ensures
            r == self.spec_sound_match(text_len, captures),
    {
        if !self.sound(text_len, captures) {
            return false;
        }
        if self.status < 0 {
            return true;
        }
        self.region.end[0] == self.status
    }
}

} // verus!
