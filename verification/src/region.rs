//! The result buffer of a search, and the capture history that hangs from it.

use vstd::prelude::*;
use crate::ll::OnigRegion;

verus! {

/// One occurrence in a capture history: the group that captured, the bytes it
/// spans, and the occurrences nested in it, from left to right.
///
/// The nodes of a search belong to the [`Region`] that the search has filled.
/// They are read through a shared borrow of that region, so none of them can
/// be kept once the region is cleared or dropped.
#[derive(Debug)]
pub struct CaptureTreeNode {
    group: usize,
    beg: usize,
    end: usize,
    childs: Vec<CaptureTreeNode>,
}

impl CaptureTreeNode {
    #[verifier::type_invariant]
    spec fn ordered(self) -> bool {
        self.beg <= self.end
    }

    /// The index of the group that captured.
    pub closed spec fn spec_group(&self) -> usize {
        self.group
    }

    /// The byte offsets at which the occurrence begins and ends.
    pub closed spec fn spec_pos(&self) -> (usize, usize) {
        (self.beg, self.end)
    }

    /// The nested occurrences, from left to right.
    pub closed spec fn spec_childs(&self) -> Seq<CaptureTreeNode> {
        self.childs@
    }

    /// Whether no node of the tree ends beyond `limit`.
    pub open spec fn spec_within(&self, limit: usize) -> bool
        decreases self,
    {
        &&& self.spec_pos().1 <= limit
        &&& forall|i: int|
            0 <= i < self.spec_childs().len() ==> (#[trigger] self.spec_childs()[i]).spec_within(
                limit,
            )
    }

    /// The node for group `group` over the bytes from `beg` to `end`, with
    /// `childs` nested in it. There is no such node where one of the numbers is
    /// negative or `end` lies before `beg`.
    pub fn new(group: i32, beg: i32, end: i32, childs: Vec<CaptureTreeNode>) -> (r: Option<
        CaptureTreeNode,
    >)
        ensures
            r is Some <==> 0 <= group && 0 <= beg <= end,
            r matches Some(node) ==> {
                &&& node.spec_group() == group
                &&& node.spec_pos() == (beg as usize, end as usize)
                &&& node.spec_childs() == childs@
            },
    {
        if group < 0 || beg < 0 || end < beg {
            None
        } else {
            Some(CaptureTreeNode { group: group as usize, beg: beg as usize, end: end as usize, childs })
        }
    }

    /// The index of the group that captured.
    pub fn group(&self) -> (r: usize)
        ensures
            r == self.spec_group(),
    {
        self.group
    }

    /// The byte offsets at which the occurrence begins and ends.
    pub fn pos(&self) -> (r: (usize, usize))
        ensures
            r == self.spec_pos(),
            r.0 <= r.1,
    {
        proof {
            use_type_invariant(self);
        }
        (self.beg, self.end)
    }

    /// The number of nested occurrences.
    pub fn len(&self) -> (r: usize)
        ensures
            r == self.spec_childs().len(),
    {
        self.childs.len()
    }

    /// The nested occurrences from left to right, starting at the first. Each
    /// call starts anew.
    pub fn childs<'t>(&'t self) -> (r: CaptureTreeNodeIter<'t>)
        ensures
            r.spec_index() == 0,
            *r.spec_node() == *self,
    {
        CaptureTreeNodeIter { idx: 0, node: self }
    }

    /// Whether no node of the tree ends beyond `limit`.
    pub fn within(&self, limit: usize) -> (r: bool)
        ensures
            r == self.spec_within(limit),
        decreases self,
    {
        if self.end > limit {
            return false;
        }
        let mut i: usize = 0;
        while i < self.childs.len()
            invariant
                i <= self.childs@.len(),
                self.end <= limit,
                forall|j: int| 0 <= j < i ==> (#[trigger] self.childs@[j]).spec_within(limit),
            decreases self.childs@.len() - i,
        {
            if !self.childs[i].within(limit) {
                assert(!self.spec_childs()[i as int].spec_within(limit));
                return false;
            }
            i += 1;
        }
        true
    }
}

impl vstd::std_specs::core::IndexSpecImpl<usize> for CaptureTreeNode {
    open spec fn index_req(&self, index: &usize) -> bool {
        *index < self.spec_childs().len()
    }
}

/// `node[i]` is the `i`-th nested occurrence. An index that is not below
/// `node.len()` is out of bounds, as it is for a slice.
impl core::ops::Index<usize> for CaptureTreeNode {
    type Output = CaptureTreeNode;

    fn index(&self, index: usize) -> (r: &CaptureTreeNode)
        ensures
            *r == self.spec_childs()[index as int],
    {
        &self.childs[index]
    }
}

/// Walks the nested occurrences of a node from left to right.
#[derive(Debug)]
pub struct CaptureTreeNodeIter<'t> {
    idx: usize,
    node: &'t CaptureTreeNode,
}

impl<'t> CaptureTreeNodeIter<'t> {
    /// The number of occurrences handed out so far.
    pub closed spec fn spec_index(&self) -> usize {
        self.idx
    }

    /// The node whose nested occurrences are walked.
    pub closed spec fn spec_node(&self) -> &'t CaptureTreeNode {
        self.node
    }

    /// The next nested occurrence, or `None` once all were handed out.
    pub fn next(&mut self) -> (r: Option<&'t CaptureTreeNode>)
        ensures
            final(self).spec_node() == old(self).spec_node(),
            old(self).spec_index() < old(self).spec_node().spec_childs().len() ==> {
                &&& r is Some
                &&& *r->Some_0 == old(self).spec_node().spec_childs()[old(self).spec_index() as int]
                &&& final(self).spec_index() == old(self).spec_index() + 1
            },
            old(self).spec_index() >= old(self).spec_node().spec_childs().len() ==> {
                &&& r is None
                &&& final(self).spec_index() == old(self).spec_index()
            },
    {
        if self.idx < self.node.len() {
            self.idx += 1;
            Some(&self.node.childs[self.idx - 1])
        } else {
            None
        }
    }
}

/// What one slot of a region says: nothing where the group took no part in
/// the match, else the bytes that the group spans.
pub open spec fn slot_span(slot: (i32, i32)) -> Option<(usize, usize)> {
    if slot.0 >= 0 {
        Some((slot.0 as usize, slot.1 as usize))
    } else {
        None
    }
}

/// Whether a slot is one that a region may hold: the group took no part, or
/// its end does not lie before its beginning.
pub open spec fn slot_ordered(slot: (i32, i32)) -> bool {
    slot.0 < 0 || slot.0 <= slot.1
}

/// Representation of regex search result: one slot for each capture group,
/// group 0 being the whole match, and the root of the capture history where the
/// search recorded one.
///
/// A region is tied neither to a text nor to a regex. It can be cleared and
/// used for the next search.
#[derive(Debug)]
pub struct Region {
    beg: Vec<i32>,
    end: Vec<i32>,
    history_root: Option<CaptureTreeNode>,
}

impl Region {
    /// The two arrays have one entry for each slot, and every slot is ordered.
    pub closed spec fn wf(&self) -> bool {
        &&& self.beg@.len() == self.end@.len()
        &&& forall|i: int|
            0 <= i < self.beg@.len() ==> slot_ordered((#[trigger] self.beg@[i], self.end@[i]))
    }

    /// The slots, as pairs of the stored begin and end offsets.
    pub closed spec fn slots(&self) -> Seq<(i32, i32)> {
        Seq::new(self.beg@.len(), |i: int| (self.beg@[i], self.end@[i]))
    }

    /// The root of the capture history.
    pub closed spec fn spec_tree(&self) -> Option<CaptureTreeNode> {
        self.history_root
    }

    /// The span of each group, in group order.
    pub open spec fn view(&self) -> Seq<Option<(usize, usize)>> {
        self.slots().map_values(|slot: (i32, i32)| slot_span(slot))
    }

    /// The span of group `pos`: nothing where the region has no such slot or
    /// the group took no part in the match.
    pub open spec fn spec_pos(&self, pos: usize) -> Option<(usize, usize)> {
        if pos < self.slots().len() {
            slot_span(self.slots()[pos as int])
        } else {
            None
        }
    }

    /// Create empty region.
    pub fn new() -> (r: Region)
        ensures
            r.wf(),
            r.slots() == Seq::<(i32, i32)>::empty(),
            r.spec_tree() is None,
    {
        Region { beg: Vec::new(), end: Vec::new(), history_root: None }
    }

    /// Returns the number of captured groups.
    pub fn len(&self) -> (r: usize)
        ensures
            r == self.slots().len(),
    {
        self.beg.len()
    }

    /// Returns the start and end positions of the Nth capture group. Returns
    /// `None` if `pos` is not a valid capture group or if the capture group did
    /// not match anything. The positions returned are always byte indices with
    /// respect to the string that was matched.
    pub fn pos(&self, pos: usize) -> (r: Option<(usize, usize)>)
        requires
            self.wf(),
        ensures
            r == self.spec_pos(pos),
            pos >= self.slots().len() ==> r is None,
            pos < self.slots().len() && self.slots()[pos as int].0 < 0 ==> r is None,
            pos < self.slots().len() && self.slots()[pos as int].0 >= 0 ==> r is Some,
            r matches Some((beg, end)) ==> beg <= end,
    {
        if pos >= self.len() {
            return None;
        }
        let beg = self.beg[pos];
        let end = self.end[pos];
        if beg >= 0 {
            Some((beg as usize, end as usize))
        } else {
            None
        }
    }

    /// The root of the capture history that the last search recorded, if it
    /// recorded one.
    pub fn tree(&self) -> (r: Option<&CaptureTreeNode>)
        ensures
            r is Some <==> self.spec_tree() is Some,
            r matches Some(root) ==> *root == self.spec_tree()->Some_0,
    {
        self.history_root.as_ref()
    }

    /// Clear contents of region: no slot and no capture history is left. The
    /// arrays keep what they have allocated.
    pub fn clear(&mut self)
        ensures
            final(self).wf(),
            final(self).slots() == Seq::<(i32, i32)>::empty(),
            final(self).spec_tree() is None,
    {
        self.beg.clear();
        self.end.clear();
        self.history_root = None;
    }

    /// Makes the region hold exactly `n` slots. The slots below `n` that it
    /// had are kept; the others are slots of groups that took no part. The
    /// capture history is left as it is.
    pub fn resize(&mut self, n: usize)
        requires
            old(self).wf(),
        ensures
            final(self).wf(),
            final(self).slots().len() == n,
            forall|i: int|
                0 <= i < n ==> #[trigger] final(self).slots()[i] == if i < old(self).slots().len() {
                    old(self).slots()[i]
                } else {
                    (-1i32, -1i32)
                },
            final(self).spec_tree() == old(self).spec_tree(),
    {
        self.beg.truncate(n);
        self.end.truncate(n);
        while self.beg.len() < n
            invariant
                old(self).wf(),
                self.beg@.len() == self.end@.len(),
                self.beg@.len() <= n,
                old(self).beg@.len() >= n ==> self.beg@.len() == n,
                old(self).beg@.len() < n ==> self.beg@.len() >= old(self).beg@.len(),
                self.history_root == old(self).history_root,
                forall|i: int|
                    0 <= i < self.beg@.len() ==> #[trigger] self.beg@[i] == if i < old(
                        self,
                    ).beg@.len() {
                        old(self).beg@[i]
                    } else {
                        -1i32
                    },
                forall|i: int|
                    0 <= i < self.end@.len() ==> #[trigger] self.end@[i] == if i < old(
                        self,
                    ).end@.len() {
                        old(self).end@[i]
                    } else {
                        -1i32
                    },
            decreases n - self.beg@.len(),
        {
            self.beg.push(-1);
            self.end.push(-1);
        }
    }

    /// Overwrites the region with what the engine wrote.
    pub(crate) fn assign(&mut self, raw: OnigRegion)
        requires
            raw.spec_ordered(),
        ensures
            final(self).wf(),
            final(self).slots() == raw.slots(),
            final(self).spec_tree() == raw.history_root,
    {
        self.beg.clear();
        self.end.clear();
        let mut i: usize = 0;
        while i < raw.beg.len()
            invariant
                raw.spec_ordered(),
                i <= raw.beg@.len(),
                self.beg@.len() == i,
                self.end@.len() == i,
                forall|j: int| 0 <= j < i ==> self.beg@[j] == raw.beg@[j],
                forall|j: int| 0 <= j < i ==> self.end@[j] == raw.end@[j],
            decreases raw.beg@.len() - i,
        {
            self.beg.push(raw.beg[i]);
            self.end.push(raw.end[i]);
            i += 1;
        }
        self.history_root = raw.history_root;
        assert(self.slots() =~= raw.slots());
        assert forall|j: int| 0 <= j < self.beg@.len() implies slot_ordered(
            (#[trigger] self.beg@[j], self.end@[j]),
        ) by {
            assert(slot_ordered(raw.slots()[j]));
        }
    }
}

/// A slot beyond the last, and the slot of a group that took no part, have no
/// span; every other slot has one, and its end does not lie before its
/// beginning.
pub proof fn law_region_pos(region: Region, pos: usize)
    requires
        region.wf(),
    ensures
        pos >= region.slots().len() ==> region.spec_pos(pos) is None,
        pos < region.slots().len() && region.slots()[pos as int].0 < 0 ==> region.spec_pos(pos)
            is None,
        pos < region.slots().len() && region.slots()[pos as int].0 >= 0 ==> {
            &&& region.spec_pos(pos) matches Some((beg, end))
            &&& beg == region.slots()[pos as int].0
            &&& end == region.slots()[pos as int].1
            &&& beg <= end
        },
{
    if pos < region.slots().len() {
        assert(slot_ordered((region.beg@[pos as int], region.end@[pos as int])));
    }
}

} // verus!
