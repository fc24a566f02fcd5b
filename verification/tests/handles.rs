use irony::{EntityId, Environ, Id, OpId, RegionId};

/// An environment that owns a few numbers and names them by position.
struct Numbers {
    owned: Vec<u32>,
}

impl Environ for Numbers {
    type EntityT = u32;

    fn get_entity(&self, id: EntityId) -> &u32 {
        &self.owned[id.id()]
    }

    fn get_def(&self, _id: EntityId) -> Option<OpId> {
        None
    }

    fn get_uses(&self, _id: EntityId) -> Vec<OpId> {
        Vec::new()
    }

    fn get_region_use(&self, _id: RegionId) -> Option<OpId> {
        None
    }

    fn print_region(&self, _id: RegionId) -> String {
        String::new()
    }
}

#[test]
fn default_entity_handle_is_unassigned() {
    assert_eq!(EntityId::default(), EntityId(0));
    assert_eq!(EntityId::default().id(), 0);
}

#[test]
fn handles_come_from_raw_integers() {
    assert_eq!(EntityId::from(12), EntityId(12));
    assert_eq!(OpId::from(34), OpId(34));
    let handle: EntityId = 56usize.into();
    assert_eq!(handle, EntityId(56));
    let handle: OpId = 78usize.into();
    assert_eq!(handle.id(), 78);
}

#[test]
fn handles_carry_their_identifier() {
    let mut entity = EntityId(1);
    let mut region = RegionId(2);
    let mut op = OpId(3);
    assert_eq!((entity.id(), region.id(), op.id()), (1, 2, 3));
    entity.set_id(10);
    region.set_id(20);
    op.set_id(30);
    assert_eq!(entity, EntityId(10));
    assert_eq!(region, RegionId(20));
    assert_eq!(op, OpId(30));
}

#[test]
fn handles_are_copied_and_compared() {
    let first = EntityId(5);
    let second = first;
    assert_eq!(first, second);
    assert_ne!(first, EntityId(6));
    assert_ne!(RegionId(1), RegionId(2));
    assert_ne!(OpId(1), OpId(2));
    assert_eq!(first.clone(), first);
}

#[test]
fn entity_handle_resolves_in_its_environment() {
    let env = Numbers { owned: vec![40, 41, 42] };
    assert_eq!(*EntityId(0).get(&env), 40);
    assert_eq!(*EntityId(2).get(&env), 42);
    let handle = EntityId::from(1);
    assert_eq!(*handle.get(&env), 41);
}
