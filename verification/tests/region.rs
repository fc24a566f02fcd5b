use irony::{EntityId, Environ, Id, OpId, Region, RegionId};

/// An environment in which exactly one region is attached to an operation.
struct OneOwner {
    region: usize,
    owner: OpId,
    asked: std::cell::Cell<usize>,
}

impl Environ for OneOwner {
    type EntityT = usize;

    fn get_entity(&self, _id: EntityId) -> &usize {
        &self.region
    }

    fn get_def(&self, _id: EntityId) -> Option<OpId> {
        None
    }

    fn get_uses(&self, _id: EntityId) -> Vec<OpId> {
        Vec::new()
    }

    fn get_region_use(&self, id: RegionId) -> Option<OpId> {
        self.asked.set(self.asked.get() + 1);
        if id.id() == self.region {
            Some(self.owner)
        } else {
            None
        }
    }

    fn print_region(&self, id: RegionId) -> String {
        format!("region {}", id.id())
    }
}

#[test]
fn new_region_is_empty() {
    let region = Region::new();
    assert_eq!(region.id(), 0);
    assert!(region.op_children().is_empty());
    assert!(region.entity_children().is_empty());
}

#[test]
fn default_region_is_a_new_region() {
    assert_eq!(Region::default(), Region::new());
}

#[test]
fn new_region_holds_no_child() {
    let region = Region::new();
    assert!(!region.has_op_child(OpId(0)));
    assert!(!region.has_op_child(OpId(1)));
    assert!(!region.has_entity_child(EntityId(0)));
    assert!(!region.has_entity_child(EntityId(1)));
}

#[test]
fn region_handle_follows_its_identifier() {
    let mut region = Region::new();
    assert_eq!(region.as_id(), RegionId(0));
    region.set_id(17);
    assert_eq!(region.id(), 17);
    assert_eq!(region.as_id(), RegionId(17));
    region.set_id(usize::MAX);
    assert_eq!(region.as_id(), RegionId(usize::MAX));
}

#[test]
fn set_id_keeps_the_children() {
    let mut region = Region::new();
    region.add_op_child(OpId(3));
    region.add_entity_child(EntityId(4));
    region.set_id(8);
    assert_eq!(*region.op_children(), vec![OpId(3)]);
    assert_eq!(*region.entity_children(), vec![EntityId(4)]);
}

#[test]
fn op_children_keep_call_order() {
    let mut region = Region::new();
    region.add_op_child(OpId(1));
    assert_eq!(*region.op_children(), vec![OpId(1)]);
    region.add_op_child(OpId(2));
    assert_eq!(*region.op_children(), vec![OpId(1), OpId(2)]);
    assert!(region.entity_children().is_empty());
    assert_eq!(region.id(), 0);
}

#[test]
fn op_children_are_not_sorted() {
    let mut region = Region::new();
    for handle in [5usize, 2, 9, 0] {
        let op = OpId(handle);
        assert!(!region.has_op_child(op));
        region.add_op_child(op);
    }
    assert_eq!(*region.op_children(), vec![OpId(5), OpId(2), OpId(9), OpId(0)]);
}

#[test]
fn a_second_add_of_an_op_child_is_ruled_out() {
    let mut region = Region::new();
    region.add_op_child(OpId(1));
    region.add_op_child(OpId(2));
    // Adding 1 again would break the contract of `add_op_child`: the region
    // reports that it holds the handle, and its children stay as they are.
    assert!(region.has_op_child(OpId(1)));
    assert!(region.has_op_child(OpId(2)));
    assert!(!region.has_op_child(OpId(3)));
    assert_eq!(*region.op_children(), vec![OpId(1), OpId(2)]);
}

#[test]
fn entity_children_keep_call_order() {
    let mut region = Region::new();
    region.add_entity_child(EntityId(7));
    region.add_entity_child(EntityId(3));
    assert_eq!(*region.entity_children(), vec![EntityId(7), EntityId(3)]);
    assert!(region.op_children().is_empty());
}

#[test]
fn a_second_add_of_an_entity_child_is_ruled_out() {
    let mut region = Region::new();
    region.add_entity_child(EntityId(7));
    region.add_entity_child(EntityId(3));
    assert!(region.has_entity_child(EntityId(7)));
    assert!(region.has_entity_child(EntityId(3)));
    assert!(!region.has_entity_child(EntityId(1)));
    assert_eq!(*region.entity_children(), vec![EntityId(7), EntityId(3)]);
}

#[test]
fn op_and_entity_children_do_not_mix() {
    let mut region = Region::new();
    region.add_op_child(OpId(1));
    assert!(!region.has_entity_child(EntityId(1)));
    region.add_entity_child(EntityId(1));
    assert_eq!(*region.op_children(), vec![OpId(1)]);
    assert_eq!(*region.entity_children(), vec![EntityId(1)]);
}

#[test]
fn a_clone_holds_the_same_children() {
    let mut region = Region::new();
    region.set_id(2);
    region.add_op_child(OpId(4));
    region.add_entity_child(EntityId(6));
    let copy = region.clone();
    assert_eq!(copy, region);
    region.add_op_child(OpId(5));
    assert_eq!(*copy.op_children(), vec![OpId(4)]);
}

#[test]
fn region_use_is_asked_of_the_environment() {
    let env = OneOwner { region: 4, owner: OpId(9), asked: std::cell::Cell::new(0) };
    let mut region = Region::new();
    assert_eq!(region.get_use(&env), None);
    region.set_id(4);
    assert_eq!(region.get_use(&env), Some(OpId(9)));
    region.set_id(5);
    assert_eq!(region.get_use(&env), None);
    assert_eq!(env.asked.get(), 3);
}
