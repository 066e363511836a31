//! The groups of one match, read against the text that was searched.

use vstd::prelude::*;
use vstd::string::StringSliceAdditionalSpecFns;
use vstd::utf8::encode_utf8_valid_utf8;
use vstd::utf8::is_char_boundary;
use vstd::utf8::is_char_boundary_iff_not_is_continuation_byte;
use vstd::utf8::is_char_boundary_start_end_of_seq;
use vstd::utf8::valid_utf8;
use vstd::utf8::valid_utf8_split;
use crate::ll::slot_within;
use crate::region::slot_span;
use crate::region::Region;

verus! {

/// Captures represents a group of captured strings for a single match.
///
/// The 0th capture always corresponds to the entire match. Each subsequent
/// index corresponds to the next capture group in the regex. Positions
/// returned from a capture group are always byte indices.
///
/// `'t` is the lifetime of the matched text.
#[derive(Debug)]
pub struct Captures<'t> {
    text: &'t str,
    region: Region,
}

impl<'t> Captures<'t> {
    /// The region is well-formed, and every slot of it lies in the text.
    pub closed spec fn wf(&self) -> bool {
        &&& self.region.wf()
        &&& forall|i: int|
            0 <= i < self.region.slots().len() ==> slot_within(
                #[trigger] self.region.slots()[i],
                self.text.len(),
            )
    }

    /// The matched text.
    pub closed spec fn spec_text(&self) -> &'t str {
        self.text
    }

    /// The slots of the match, as pairs of begin and end offsets.
    pub closed spec fn slots(&self) -> Seq<(i32, i32)> {
        self.region.slots()
    }

    /// The span of group `pos`: nothing where there is no such group or the
    /// group took no part in the match.
    pub open spec fn spec_pos(&self, pos: usize) -> Option<(usize, usize)> {
        if pos < self.slots().len() {
            slot_span(self.slots()[pos as int])
        } else {
            None
        }
    }

    /// Whether group `pos` took part in the match and its span begins and ends
    /// between two characters of the text.
    pub open spec fn spec_has_str(&self, pos: usize) -> bool {
        &&& self.spec_pos(pos) matches Some((beg, end))
        &&& is_char_boundary(self.spec_text().spec_bytes(), beg as int)
        &&& is_char_boundary(self.spec_text().spec_bytes(), end as int)
    }

    /// The bytes of the text that group `pos` spans.
    pub open spec fn spec_bytes_at(&self, pos: usize) -> Seq<u8>
        recommends
            self.spec_pos(pos) is Some,
    {
        let (beg, end) = self.spec_pos(pos)->Some_0;
        self.spec_text().spec_bytes().subrange(beg as int, end as int)
    }

    /// The groups of a match in `text`, as `region` holds them.
    pub(crate) fn new(text: &'t str, region: Region) -> (r: Captures<'t>)
        requires
            region.wf(),
            forall|i: int|
                0 <= i < region.slots().len() ==> slot_within(
                    #[trigger] region.slots()[i],
                    text.len(),
                ),
        ensures
            r.wf(),
            r.spec_text()@ == text@,
            r.slots() == region.slots(),
    {
        Captures { text, region }
    }

    /// Returns the start and end positions of the Nth capture group. Returns
    /// `None` if `pos` is not a valid capture group or if the capture group did
    /// not match anything. The positions returned are always byte indices with
    /// respect to the string that was matched.
    pub fn pos(&self, pos: usize) -> (r: Option<(usize, usize)>)
        requires
            self.wf(),
        ensures
            r == self.spec_pos(pos),
            r matches Some((beg, end)) ==> beg <= end <= self.spec_text().len(),
    {
        let r = self.region.pos(pos);
        proof {
            if pos < self.region.slots().len() {
                assert(slot_within(self.region.slots()[pos as int], self.text.len()));
            }
        }
        r
    }

    /// Returns the matched string for the capture group `pos`. If `pos` isn't
    /// a valid capture group or didn't match anything, then `None` is returned.
    /// `None` is returned too where the group begins or ends inside a
    /// character of the text, for then no string slice has its bytes.
    pub fn at(&self, pos: usize) -> (r: Option<&'t str>)
        requires
            self.wf(),
        ensures
            r is Some <==> self.spec_has_str(pos),
            r matches Some(s) ==> s.spec_bytes() == self.spec_bytes_at(pos),
    {
        match self.pos(pos) {
            None => None,
            Some((beg, end)) => {
                if self.text.is_char_boundary(beg) && self.text.is_char_boundary(end) {
                    proof {
                        encode_utf8_valid_utf8(self.text@);
                        lemma_boundary_in_prefix(self.text.spec_bytes(), beg as int, end as int);
                    }
                    let (head, _) = self.text.split_at(end);
                    let (_, s) = head.split_at(beg);
                    assert(s.spec_bytes() =~= self.text.spec_bytes().subrange(
                        beg as int,
                        end as int,
                    ));
                    Some(s)
                } else {
                    None
                }
            },
        }
    }

    /// Returns the number of captured groups.
    pub fn len(&self) -> (r: usize)
        ensures
            r == self.slots().len(),
    {
        self.region.len()
    }

    /// Returns true if and only if there are no captured groups.
    pub fn is_empty(&self) -> (r: bool)
        ensures
            r == (self.slots().len() == 0),
    {
        self.len() == 0
    }

    /// Walks the capture groups in order of appearance in the regular
    /// expression, starting at group 0. Each call starts anew.
    pub fn iter(&'t self) -> (r: SubCaptures<'t>)
        ensures
            r.spec_index() == 0,
            *r.spec_captures() == *self,
    {
        SubCaptures { idx: 0, caps: self }
    }

    /// Walks the capture group positions in order of appearance in the
    /// regular expression, starting at group 0. Positions are byte indices in
    /// terms of the string that was matched. Each call starts anew.
    pub fn iter_pos(&'t self) -> (r: SubCapturesPos<'t>)
        ensures
            r.spec_index() == 0,
            *r.spec_captures() == *self,
    {
        SubCapturesPos { idx: 0, caps: self }
    }
}

/// A character boundary of a text is one of each prefix of the text that ends
/// at a character boundary behind it.
proof fn lemma_boundary_in_prefix(bytes: Seq<u8>, beg: int, end: int)
    requires
        valid_utf8(bytes),
        0 <= beg <= end <= bytes.len(),
        is_char_boundary(bytes, beg),
        is_char_boundary(bytes, end),
    ensures
        valid_utf8(bytes.subrange(0, end)),
        is_char_boundary(bytes.subrange(0, end), beg),
{
    valid_utf8_split(bytes, end);
    let head = bytes.subrange(0, end);
    if beg < end {
        is_char_boundary_iff_not_is_continuation_byte(bytes, beg);
        is_char_boundary_iff_not_is_continuation_byte(head, beg);
    } else {
        is_char_boundary_start_end_of_seq(head);
    }
}

/// An iterator over capture groups for a particular match of a regular
/// expression.
///
/// `'t` is the lifetime of the matched text.
#[derive(Debug)]
pub struct SubCaptures<'t> {
    idx: usize,
    caps: &'t Captures<'t>,
}

impl<'t> SubCaptures<'t> {
    /// The number of groups handed out so far.
    pub closed spec fn spec_index(&self) -> usize {
        self.idx
    }

    /// The captures that are walked.
    pub closed spec fn spec_captures(&self) -> &'t Captures<'t> {
        self.caps
    }

    /// The string of the next group, as [`Captures::at`] gives it, or `None`
    /// once every group was handed out.
    pub fn next(&mut self) -> (r: Option<Option<&'t str>>)
        requires
            old(self).spec_captures().wf(),
        ensures
            final(self).spec_captures() == old(self).spec_captures(),
            old(self).spec_index() < old(self).spec_captures().slots().len() ==> {
                &&& r matches Some(group)
                &&& group is Some <==> old(self).spec_captures().spec_has_str(old(self).spec_index())
                &&& group matches Some(s) ==> s.spec_bytes() == old(
                    self,
                ).spec_captures().spec_bytes_at(old(self).spec_index())
                &&& final(self).spec_index() == old(self).spec_index() + 1
            },
            old(self).spec_index() >= old(self).spec_captures().slots().len() ==> {
                &&& r is None
                &&& final(self).spec_index() == old(self).spec_index()
            },
    {
        if self.idx < self.caps.len() {
            self.idx += 1;
            Some(self.caps.at(self.idx - 1))
        } else {
            None
        }
    }
}

/// An iterator over capture group positions for a particular match of
/// a regular expression.
///
/// Positions are byte indices in terms of the string that was matched.
/// `'t` is the lifetime of the matched text.
#[derive(Debug)]
pub struct SubCapturesPos<'t> {
    idx: usize,
    caps: &'t Captures<'t>,
}

impl<'t> SubCapturesPos<'t> {
    /// The number of groups handed out so far.
    pub closed spec fn spec_index(&self) -> usize {
        self.idx
    }

    /// The captures that are walked.
    pub closed spec fn spec_captures(&self) -> &'t Captures<'t> {
        self.caps
    }

    /// The position of the next group, as [`Captures::pos`] gives it, or
    /// `None` once every group was handed out.
    pub fn next(&mut self) -> (r: Option<Option<(usize, usize)>>)
        requires
            old(self).spec_captures().wf(),
        ensures
            final(self).spec_captures() == old(self).spec_captures(),
            old(self).spec_index() < old(self).spec_captures().slots().len() ==> {
                &&& r == Some(old(self).spec_captures().spec_pos(old(self).spec_index()))
                &&& final(self).spec_index() == old(self).spec_index() + 1
            },
            old(self).spec_index() >= old(self).spec_captures().slots().len() ==> {
                &&& r is None
                &&& final(self).spec_index() == old(self).spec_index()
            },
    {
        if self.idx < self.caps.len() {
            self.idx += 1;
            Some(self.caps.pos(self.idx - 1))
        } else {
            None
        }
    }
}

} // verus!
