//! Entities, and the handles that name entities and regions.

use vstd::prelude::*;

use crate::attribute::named;
use crate::common::Id;
use crate::environ::Environ;
use crate::operation::OpId;

verus! {

/// A copyable reference to an entity owned by an environment.
#[derive(Clone, Copy, PartialEq, Eq, Structural, Debug)]
pub struct EntityId(pub usize);

/// A copyable reference to a region owned by an environment.
#[derive(Clone, Copy, PartialEq, Eq, Structural, Debug)]
pub struct RegionId(pub usize);

impl Id for EntityId {
    open spec fn spec_id(&self) -> usize {
        self.0
    }

    fn id(&self) -> (id: usize) {
        self.0
    }

    fn set_id(&mut self, id: usize)
        ensures
            *final(self) == EntityId(id),
    {
        self.0 = id
    }
}

impl Id for RegionId {
    open spec fn spec_id(&self) -> usize {
        self.0
    }

    fn id(&self) -> (id: usize) {
        self.0
    }

    fn set_id(&mut self, id: usize)
        ensures
            *final(self) == RegionId(id),
    {
        self.0 = id
    }
}

impl EntityId {
    /// The handle of an entity that no environment has taken in yet.
    pub open spec fn unassigned() -> EntityId {
        EntityId(0)
    }

    /// Resolves this handle in the environment that owns the entity.
    pub fn get<'env: 't, 't, E: Environ>(&'t self, env: &'env E) -> (entity: &'t E::EntityT)
        ensures
            call_ensures(E::get_entity, (env, *self), entity),
    {
        env.get_entity(*self)
    }
}

impl Default for EntityId {
    fn default() -> (handle: Self)
        ensures
            handle == EntityId::unassigned(),
    {
        EntityId(0)
    }
}

impl From<usize> for EntityId {
    fn from(value: usize) -> (handle: Self) {
        Self(value)
    }
}

impl vstd::std_specs::convert::FromSpecImpl<usize> for EntityId {
    open spec fn obeys_from_spec() -> bool {
        true
    }

    open spec fn from_spec(value: usize) -> Self {
        EntityId(value)
    }
}

/// What every value-like node of every dialect offers.
///
/// An entity carries an identifier, an optional static type, an optional
/// owning region and zero or more named attributes. Its defining operation
/// and its consumers are not stored on it: they are read from the
/// environment.
pub trait Entity: Id {
    type DataTypeT;

    type AttributeT;

    /// The static type, if the entity has one.
    spec fn spec_dtype(&self) -> Option<Self::DataTypeT>;

    /// The region the entity is attached to, if any.
    spec fn spec_parent(&self) -> Option<RegionId>;

    /// The attributes that are set, by name, in declaration order.
    spec fn spec_attrs(&self) -> Seq<(Seq<char>, Self::AttributeT)>;

    fn get_dtype(&self) -> (dtype: Option<Self::DataTypeT>)
        ensures
            dtype == self.spec_dtype(),
    ;

    /// Asks the environment for the operation that defines this entity.
    fn get_def<E: Environ>(&self, env: &E) -> (def: Option<OpId>)
        ensures
            call_ensures(E::get_def, (env, EntityId(self.spec_id())), def),
    ;

    /// Asks the environment for the operations that consume this entity.
    fn get_uses<E: Environ>(&self, env: &E) -> (uses: Vec<OpId>)
        ensures
            call_ensures(E::get_uses, (env, EntityId(self.spec_id())), uses),
    ;

    /// The handle that names this entity.
    fn as_id(&self) -> (handle: EntityId)
        ensures
            handle == EntityId(self.spec_id()),
    ;

    fn get_parent(&self) -> (parent: Option<RegionId>)
        ensures
            parent == self.spec_parent(),
    ;

    /// Attaches the entity to `parent`, replacing any earlier attachment.
    /// Nothing detaches an entity again.
    fn set_parent(&mut self, parent: RegionId)
        ensures
            final(self).spec_parent() == Some(parent),
            final(self).spec_id() == old(self).spec_id(),
            final(self).spec_dtype() == old(self).spec_dtype(),
            final(self).spec_attrs() == old(self).spec_attrs(),
    ;

    /// The attributes that are set, each under its name. An attribute that
    /// is not set is left out.
    fn get_attrs(&self) -> (attrs: Vec<(String, Self::AttributeT)>)
        ensures
            named(attrs@) == self.spec_attrs(),
    ;
}

} // verus!
