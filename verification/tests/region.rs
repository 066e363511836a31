use oniguruma::{CaptureTreeNode, CompileReply, OnigRegion, Regex, Region, SearchReply};

/// A region filled by a search with the given slots and capture history.
fn filled(slots: &[(i32, i32)], history_root: Option<CaptureTreeNode>, text: &str) -> Region {
    let groups = slots.len() as i32 - 1;
    let compiled =
        CompileReply { code: 0, reg: 1, num_captures: groups, num_names: 0, num_capture_histories: 0 };
    let regex = Regex::new("").finish(compiled).unwrap();
    let reply = SearchReply {
        status: slots[0].0,
        region: OnigRegion {
            num_regs: slots.len() as i32,
            beg: slots.iter().map(|slot| slot.0).collect(),
            end: slots.iter().map(|slot| slot.1).collect(),
            history_root,
        },
    };
    let mut region = Region::new();
    regex.search_with_region(text, &mut region, reply).unwrap();
    region
}

#[test]
fn test_region_create() {
    let region = Region::new();
    assert_eq!(region.len(), 0);
    assert_eq!(region.pos(0), None);
}

#[test]
fn test_region_clear() {
    let mut region = Region::new();
    region.clear();
}

#[test]
fn a_new_region_has_no_tree() {
    let region = Region::new();
    assert!(region.tree().is_none());
    assert_eq!(region.pos(usize::MAX), None);
}

#[test]
fn pos_is_none_beyond_the_last_slot_and_for_groups_that_took_no_part() {
    let region = filled(&[(1, 4), (-1, -1), (2, 2), (-1, 3)], None, "hello");
    assert_eq!(region.len(), 4);
    assert_eq!(region.pos(0), Some((1, 4)));
    assert_eq!(region.pos(1), None);
    assert_eq!(region.pos(2), Some((2, 2)));
    assert_eq!(region.pos(3), None);
    assert_eq!(region.pos(4), None);
    assert_eq!(region.pos(5), None);
    for i in 0..6 {
        if let Some((beg, end)) = region.pos(i) {
            assert!(beg <= end);
        }
    }
}

#[test]
fn clear_leaves_no_slot_and_no_tree() {
    let root = CaptureTreeNode::new(0, 1, 4, Vec::new());
    let mut region = filled(&[(1, 4), (2, 4)], root, "hello");
    assert_eq!(region.len(), 2);
    assert!(region.tree().is_some());
    region.clear();
    assert_eq!(region.len(), 0);
    assert_eq!(region.pos(0), None);
    assert_eq!(region.pos(1), None);
    assert!(region.tree().is_none());
}

#[test]
fn resize_keeps_the_slots_below_and_adds_empty_ones() {
    let mut region = filled(&[(1, 4), (2, 4), (3, 4)], None, "hello");
    region.resize(5);
    assert_eq!(region.len(), 5);
    assert_eq!(region.pos(0), Some((1, 4)));
    assert_eq!(region.pos(1), Some((2, 4)));
    assert_eq!(region.pos(2), Some((3, 4)));
    assert_eq!(region.pos(3), None);
    assert_eq!(region.pos(4), None);
    assert_eq!(region.pos(5), None);
    region.resize(2);
    assert_eq!(region.len(), 2);
    assert_eq!(region.pos(0), Some((1, 4)));
    assert_eq!(region.pos(1), Some((2, 4)));
    assert_eq!(region.pos(2), None);
    region.resize(2);
    assert_eq!(region.len(), 2);
    region.resize(0);
    assert_eq!(region.len(), 0);
    assert_eq!(region.pos(0), None);
}

#[test]
fn resize_leaves_the_tree() {
    let root = CaptureTreeNode::new(0, 1, 4, Vec::new());
    let mut region = filled(&[(1, 4)], root, "hello");
    region.resize(3);
    assert_eq!(region.tree().unwrap().pos(), (1, 4));
}

#[test]
fn a_region_can_be_sized_before_a_search() {
    let mut region = Region::new();
    region.resize(3);
    assert_eq!(region.len(), 3);
    assert_eq!(region.pos(0), None);
    assert_eq!(region.pos(2), None);
}

#[test]
fn nodes_are_made_of_numbers_that_are_not_negative() {
    assert!(CaptureTreeNode::new(0, 0, 0, Vec::new()).is_some());
    assert!(CaptureTreeNode::new(3, 2, 4, Vec::new()).is_some());
    assert!(CaptureTreeNode::new(-1, 2, 4, Vec::new()).is_none());
    assert!(CaptureTreeNode::new(3, -1, 4, Vec::new()).is_none());
    assert!(CaptureTreeNode::new(3, 2, -1, Vec::new()).is_none());
    assert!(CaptureTreeNode::new(3, 4, 2, Vec::new()).is_none());
    let node = CaptureTreeNode::new(i32::MAX, i32::MAX, i32::MAX, Vec::new()).unwrap();
    assert_eq!(node.group(), 2147483647);
    assert_eq!(node.pos(), (2147483647, 2147483647));
    assert_eq!(node.len(), 0);
}

#[test]
fn childs_walks_from_left_to_right_and_starts_anew() {
    let left = CaptureTreeNode::new(1, 0, 1, Vec::new()).unwrap();
    let middle = CaptureTreeNode::new(2, 1, 2, Vec::new()).unwrap();
    let right = CaptureTreeNode::new(1, 2, 3, Vec::new()).unwrap();
    let root = CaptureTreeNode::new(0, 0, 3, vec![left, middle, right]).unwrap();
    assert_eq!(root.len(), 3);
    let mut walk = root.childs();
    assert_eq!(walk.next().unwrap().pos(), (0, 1));
    assert_eq!(walk.next().unwrap().pos(), (1, 2));
    let last = walk.next().unwrap();
    assert_eq!((last.group(), last.pos()), (1, (2, 3)));
    assert!(walk.next().is_none());
    assert!(walk.next().is_none());
    let mut again = root.childs();
    assert_eq!(again.next().unwrap().group(), 1);
    assert_eq!(again.next().unwrap().group(), 2);
    assert_eq!(root[1].group(), 2);
    assert_eq!(root[2].pos(), (2, 3));
    let mut none = root[0].childs();
    assert!(none.next().is_none());
}

#[test]
fn within_looks_at_every_node() {
    let deep = CaptureTreeNode::new(2, 3, 9, Vec::new()).unwrap();
    let child = CaptureTreeNode::new(1, 2, 4, vec![deep]).unwrap();
    let root = CaptureTreeNode::new(0, 2, 4, vec![child]).unwrap();
    assert!(root.within(9));
    assert!(root.within(usize::MAX));
    assert!(!root.within(8));
    assert!(!root.within(3));
    assert!(root[0][0].within(9));
    assert!(!root[0][0].within(8));
}

#[test]
fn a_raw_region_is_within_a_text_that_holds_all_of_it() {
    let raw = OnigRegion { num_regs: 2, beg: vec![1, -1], end: vec![4, 70], history_root: None };
    assert!(raw.within(4));
    assert!(raw.within(5));
    assert!(!raw.within(3));
    let unordered = OnigRegion { num_regs: 1, beg: vec![3], end: vec![2], history_root: None };
    assert!(!unordered.within(10));
    let long = OnigRegion { num_regs: 1, beg: vec![1, 2], end: vec![1, 2], history_root: None };
    assert!(!long.within(10));
    let short = OnigRegion { num_regs: 2, beg: vec![1, 2], end: vec![1], history_root: None };
    assert!(!short.within(10));
    let negative = OnigRegion { num_regs: -1, beg: vec![], end: vec![], history_root: None };
    assert!(!negative.within(10));
    let empty = OnigRegion { num_regs: 0, beg: vec![], end: vec![], history_root: None };
    assert!(empty.within(0));
    let tree = OnigRegion {
        num_regs: 0,
        beg: vec![],
        end: vec![],
        history_root: CaptureTreeNode::new(0, 0, 6, Vec::new()),
    };
    assert!(tree.within(6));
    assert!(!tree.within(5));
}
