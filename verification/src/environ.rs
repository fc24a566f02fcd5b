//! The query surface of the environment that owns every node.

use vstd::prelude::*;

use crate::entity::{EntityId, RegionId};
use crate::operation::OpId;

verus! {

/// The arena that owns entities, operations and regions, assigns their
/// identifiers and indexes the edges between them.
///
/// The library never stores a reference to a node. It hands the environment a
/// handle and passes on the answer. What a query answers is the business of
/// the environment: the methods carry no postcondition here, and a function
/// of the library that asks one states which query it made, with which
/// handle, and that its result is the answer. An environment that states
/// postconditions on its own methods passes them on to every caller that
/// knows its type.
pub trait Environ {
    /// The type of the entities it owns: as a rule the aggregate entity type
    /// of the dialect.
    type EntityT;

    /// Resolves a handle. Every handle that the environment gave out stays
    /// valid for as long as the environment lives; that none dangles is the
    /// responsibility of the environment.
    fn get_entity(&self, id: EntityId) -> &Self::EntityT;

    /// The operation that defines the entity, if there is one.
    fn get_def(&self, id: EntityId) -> Option<OpId>;

    /// The operations that consume the entity, in consumption order.
    fn get_uses(&self, id: EntityId) -> Vec<OpId>;

    /// The operation that structurally owns the region, if it is attached.
    fn get_region_use(&self, id: RegionId) -> Option<OpId>;

    /// The dialect's textual form of the region.
    fn print_region(&self, id: RegionId) -> String;
}

} // verus!
