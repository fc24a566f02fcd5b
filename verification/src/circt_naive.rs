//! A small hardware-description dialect, composed by hand.
//!
//! The dialect declares two kinds of entity, [`Wire`] and [`Module`], each
//! with one textual attribute called `name`. Every kind is a record of its
//! own, so the two cannot be confused, and [`EntityEnum`] is the closed union
//! of them that generic code works on. A dialect with other kinds is composed
//! the same way: one record per kind, one arm per kind in the union.

use vstd::prelude::*;
use vstd::std_specs::convert::FromSpec;

use crate::attribute::{lemma_present_one, present, push_attr};
use crate::common::Id;
use crate::entity::{Entity, EntityId, RegionId};
use crate::environ::Environ;
use crate::operation::OpId;

verus! {

/// The static types of the dialect.
#[derive(Clone, Copy, PartialEq, Eq, Structural, Debug)]
pub enum DataTypeEnum {
    /// An unsigned integer of the given width.
    UInt(usize),
}

/// A textual attribute.
#[derive(Debug, PartialEq)]
pub struct StringAttr(pub String);

impl View for StringAttr {
    type V = Seq<char>;

    open spec fn view(&self) -> Seq<char> {
        self.0@
    }
}

impl Clone for StringAttr {
    fn clone(&self) -> (copy: Self)
        ensures
            copy == *self,
    {
        StringAttr(self.0.clone())
    }
}

impl<'a> From<&'a str> for StringAttr {
    fn from(text: &'a str) -> (attr: Self)
        ensures
            attr@ == text@,
    {
        StringAttr(text.to_owned())
    }
}

impl<'a> vstd::std_specs::convert::FromSpecImpl<&'a str> for StringAttr {
    /// A string is known by its characters alone, so the conversion promises
    /// the characters of its result and not the result itself.
    open spec fn obeys_from_spec() -> bool {
        false
    }

    open spec fn from_spec(text: &'a str) -> Self {
        choose|attr: StringAttr| attr@ == text@
    }
}

impl StringAttr {
    /// The text of the attribute.
    pub fn to_string(&self) -> (text: String)
        ensures
            text@ == self@,
    {
        self.0.clone()
    }
}

/// The attributes of the dialect.
#[derive(Debug, PartialEq)]
pub enum AttributeEnum {
    StringAttr(StringAttr),
}

impl Clone for AttributeEnum {
    fn clone(&self) -> (copy: Self)
        ensures
            copy == *self,
    {
        match self {
            AttributeEnum::StringAttr(inner) => AttributeEnum::StringAttr(inner.clone()),
        }
    }
}

impl From<StringAttr> for AttributeEnum {
    fn from(inner: StringAttr) -> (attr: Self) {
        AttributeEnum::StringAttr(inner)
    }
}

impl vstd::std_specs::convert::FromSpecImpl<StringAttr> for AttributeEnum {
    open spec fn obeys_from_spec() -> bool {
        true
    }

    open spec fn from_spec(inner: StringAttr) -> Self {
        AttributeEnum::StringAttr(inner)
    }
}

/// The attribute a record stores for an optional textual argument of its
/// constructor.
pub open spec fn stored(name: Option<StringAttr>) -> Option<AttributeEnum> {
    match name {
        Some(inner) => Some(AttributeEnum::StringAttr(inner)),
        None => None,
    }
}

/// A wire.
#[derive(Debug, PartialEq)]
pub struct Wire {
    pub id: usize,
    pub parent: Option<RegionId>,
    pub dtype: Option<DataTypeEnum>,
    pub name: Option<AttributeEnum>,
}

/// A hardware module.
#[derive(Debug, PartialEq)]
pub struct Module {
    pub id: usize,
    pub parent: Option<RegionId>,
    pub dtype: Option<DataTypeEnum>,
    pub name: Option<AttributeEnum>,
}

impl Wire {
    /// The wire that [`Wire::new`] builds.
    pub open spec fn spec_new(dtype: Option<DataTypeEnum>, name: Option<StringAttr>) -> Wire {
        Wire { id: 0, parent: None, dtype, name: stored(name) }
    }

    /// The wire with `id` as its identifier and everything else unchanged.
    pub open spec fn with_id(self, id: usize) -> Wire {
        Wire { id, ..self }
    }

    /// The wire attached to `parent` and everything else unchanged.
    pub open spec fn with_parent(self, parent: RegionId) -> Wire {
        Wire { parent: Some(parent), ..self }
    }

    /// A wire that belongs to no environment and no region yet.
    pub fn new(dtype: Option<DataTypeEnum>, name: Option<StringAttr>) -> (wire: Self)
        ensures
            wire == Wire::spec_new(dtype, name),
    {
        Self {
            id: 0,
            dtype,
            parent: None,
            name: match name {
                Some(inner) => Some(AttributeEnum::from(inner)),
                None => None,
            },
        }
    }
}

impl Module {
    /// The module that [`Module::new`] builds.
    pub open spec fn spec_new(dtype: Option<DataTypeEnum>, name: Option<StringAttr>) -> Module {
        Module { id: 0, parent: None, dtype, name: stored(name) }
    }

    /// The module with `id` as its identifier and everything else unchanged.
    pub open spec fn with_id(self, id: usize) -> Module {
        Module { id, ..self }
    }

    /// The module attached to `parent` and everything else unchanged.
    pub open spec fn with_parent(self, parent: RegionId) -> Module {
        Module { parent: Some(parent), ..self }
    }

    /// A module that belongs to no environment and no region yet.
    pub fn new(dtype: Option<DataTypeEnum>, name: Option<StringAttr>) -> (module: Self)
        ensures
            module == Module::spec_new(dtype, name),
    {
        Self {
            id: 0,
            dtype,
            parent: None,
            name: match name {
                Some(inner) => Some(AttributeEnum::from(inner)),
                None => None,
            },
        }
    }
}

impl Clone for Wire {
    fn clone(&self) -> (copy: Self)
        ensures
            copy == *self,
    {
        Wire { id: self.id, parent: self.parent, dtype: self.dtype, name: self.name.clone() }
    }
}

impl Clone for Module {
    fn clone(&self) -> (copy: Self)
        ensures
            copy == *self,
    {
        Module { id: self.id, parent: self.parent, dtype: self.dtype, name: self.name.clone() }
    }
}

impl Id for Wire {
    open spec fn spec_id(&self) -> usize {
        self.id
    }

    fn id(&self) -> (id: usize) {
        self.id
    }

    fn set_id(&mut self, id: usize)
        ensures
            *final(self) == old(self).with_id(id),
    {
        self.id = id
    }
}

impl Id for Module {
    open spec fn spec_id(&self) -> usize {
        self.id
    }

    fn id(&self) -> (id: usize) {
        self.id
    }

    fn set_id(&mut self, id: usize)
        ensures
            *final(self) == old(self).with_id(id),
    {
        self.id = id
    }
}

impl Entity for Wire {
    type DataTypeT = DataTypeEnum;

    type AttributeT = AttributeEnum;

    open spec fn spec_dtype(&self) -> Option<DataTypeEnum> {
        self.dtype
    }

    open spec fn spec_parent(&self) -> Option<RegionId> {
        self.parent
    }

    open spec fn spec_attrs(&self) -> Seq<(Seq<char>, AttributeEnum)> {
        present(seq![("name"@, self.name)])
    }

    fn get_dtype(&self) -> (dtype: Option<DataTypeEnum>) {
        self.dtype
    }

    fn get_def<E: Environ>(&self, env: &E) -> (def: Option<OpId>) {
        env.get_def(self.as_id())
    }

    fn get_uses<E: Environ>(&self, env: &E) -> (uses: Vec<OpId>) {
        env.get_uses(self.as_id())
    }

    fn as_id(&self) -> (handle: EntityId) {
        EntityId(self.id)
    }

    fn get_parent(&self) -> (parent: Option<RegionId>) {
        self.parent
    }

    fn set_parent(&mut self, parent: RegionId)
        ensures
            *final(self) == old(self).with_parent(parent),
    {
        self.parent = Some(parent)
    }

    fn get_attrs(&self) -> (attrs: Vec<(String, AttributeEnum)>) {
        let mut attrs = Vec::new();
        push_attr(&mut attrs, "name", self.name.clone());
        attrs
    }
}

impl Entity for Module {
    type DataTypeT = DataTypeEnum;

    type AttributeT = AttributeEnum;

    open spec fn spec_dtype(&self) -> Option<DataTypeEnum> {
        self.dtype
    }

    open spec fn spec_parent(&self) -> Option<RegionId> {
        self.parent
    }

    open spec fn spec_attrs(&self) -> Seq<(Seq<char>, AttributeEnum)> {
        present(seq![("name"@, self.name)])
    }

    fn get_dtype(&self) -> (dtype: Option<DataTypeEnum>) {
        self.dtype
    }

    fn get_def<E: Environ>(&self, env: &E) -> (def: Option<OpId>) {
        env.get_def(self.as_id())
    }

    fn get_uses<E: Environ>(&self, env: &E) -> (uses: Vec<OpId>) {
        env.get_uses(self.as_id())
    }

    fn as_id(&self) -> (handle: EntityId) {
        EntityId(self.id)
    }

    fn get_parent(&self) -> (parent: Option<RegionId>) {
        self.parent
    }

    fn set_parent(&mut self, parent: RegionId)
        ensures
            *final(self) == old(self).with_parent(parent),
    {
        self.parent = Some(parent)
    }

    fn get_attrs(&self) -> (attrs: Vec<(String, AttributeEnum)>) {
        let mut attrs = Vec::new();
        push_attr(&mut attrs, "name", self.name.clone());
        attrs
    }
}

/// The closed union of the entity kinds of the dialect.
///
/// Generic code holds entities as values of this type and reaches the common
/// contract through it, whichever kind is active.
#[derive(Debug, PartialEq)]
pub enum EntityEnum {
    Wire(Wire),
    Module(Module),
}

impl Clone for EntityEnum {
    fn clone(&self) -> (copy: Self)
        ensures
            copy == *self,
    {
        match self {
            EntityEnum::Wire(inner) => EntityEnum::Wire(inner.clone()),
            EntityEnum::Module(inner) => EntityEnum::Module(inner.clone()),
        }
    }
}

impl From<Wire> for EntityEnum {
    fn from(inner: Wire) -> (entity: Self) {
        EntityEnum::Wire(inner)
    }
}

impl vstd::std_specs::convert::FromSpecImpl<Wire> for EntityEnum {
    open spec fn obeys_from_spec() -> bool {
        true
    }

    open spec fn from_spec(inner: Wire) -> Self {
        EntityEnum::Wire(inner)
    }
}

impl From<Module> for EntityEnum {
    fn from(inner: Module) -> (entity: Self) {
        EntityEnum::Module(inner)
    }
}

impl vstd::std_specs::convert::FromSpecImpl<Module> for EntityEnum {
    open spec fn obeys_from_spec() -> bool {
        true
    }

    open spec fn from_spec(inner: Module) -> Self {
        EntityEnum::Module(inner)
    }
}

impl EntityEnum {
    /// The entity with `id` as its identifier and everything else unchanged.
    pub open spec fn with_id(self, id: usize) -> EntityEnum {
        match self {
            EntityEnum::Wire(inner) => EntityEnum::Wire(inner.with_id(id)),
            EntityEnum::Module(inner) => EntityEnum::Module(inner.with_id(id)),
        }
    }

    /// The entity attached to `parent` and everything else unchanged.
    pub open spec fn with_parent(self, parent: RegionId) -> EntityEnum {
        match self {
            EntityEnum::Wire(inner) => EntityEnum::Wire(inner.with_parent(parent)),
            EntityEnum::Module(inner) => EntityEnum::Module(inner.with_parent(parent)),
        }
    }

    /// The wire inside the union.
    pub open spec fn spec_into_wire(self) -> Wire
        recommends
            self is Wire,
    {
        self->Wire_0
    }

    /// The module inside the union.
    pub open spec fn spec_into_module(self) -> Module
        recommends
            self is Module,
    {
        self->Module_0
    }

    /// Whether the active kind is [`Wire`].
    pub fn is_wire(&self) -> (active: bool)
        ensures
            active == (self is Wire),
    {
        match self {
            EntityEnum::Wire(_) => true,
            EntityEnum::Module(_) => false,
        }
    }

    /// Whether the active kind is [`Module`].
    pub fn is_module(&self) -> (active: bool)
        ensures
            active == (self is Module),
    {
        match self {
            EntityEnum::Wire(_) => false,
            EntityEnum::Module(_) => true,
        }
    }

    /// Takes the wire out of the union.
    ///
    /// Asking for a kind that is not the active one is a bug in the caller,
    /// not a condition to recover from: the precondition rules it out.
    pub fn into_wire(self) -> (inner: Wire)
        requires
            self is Wire,
        ensures
            inner == self.spec_into_wire(),
    {
        match self {
            EntityEnum::Wire(inner) => inner,
            EntityEnum::Module(_) => vstd::pervasive::unreached(),
        }
    }

    /// Takes the module out of the union.
    ///
    /// Asking for a kind that is not the active one is a bug in the caller,
    /// not a condition to recover from: the precondition rules it out.
    pub fn into_module(self) -> (inner: Module)
        requires
            self is Module,
        ensures
            inner == self.spec_into_module(),
    {
        match self {
            EntityEnum::Wire(_) => vstd::pervasive::unreached(),
            EntityEnum::Module(inner) => inner,
        }
    }
}

impl Id for EntityEnum {
    open spec fn spec_id(&self) -> usize {
        match self {
            EntityEnum::Wire(inner) => inner.spec_id(),
            EntityEnum::Module(inner) => inner.spec_id(),
        }
    }

    fn id(&self) -> (id: usize) {
        match self {
            EntityEnum::Wire(inner) => inner.id(),
            EntityEnum::Module(inner) => inner.id(),
        }
    }

    fn set_id(&mut self, id: usize)
        ensures
            *final(self) == old(self).with_id(id),
    {
        match self {
            EntityEnum::Wire(inner) => inner.set_id(id),
            EntityEnum::Module(inner) => inner.set_id(id),
        }
    }
}

impl Entity for EntityEnum {
    type DataTypeT = DataTypeEnum;

    type AttributeT = AttributeEnum;

    open spec fn spec_dtype(&self) -> Option<DataTypeEnum> {
        match self {
            EntityEnum::Wire(inner) => inner.spec_dtype(),
            EntityEnum::Module(inner) => inner.spec_dtype(),
        }
    }

    open spec fn spec_parent(&self) -> Option<RegionId> {
        match self {
            EntityEnum::Wire(inner) => inner.spec_parent(),
            EntityEnum::Module(inner) => inner.spec_parent(),
        }
    }

    open spec fn spec_attrs(&self) -> Seq<(Seq<char>, AttributeEnum)> {
        match self {
            EntityEnum::Wire(inner) => inner.spec_attrs(),
            EntityEnum::Module(inner) => inner.spec_attrs(),
        }
    }

    fn get_dtype(&self) -> (dtype: Option<DataTypeEnum>) {
        match self {
            EntityEnum::Wire(inner) => inner.get_dtype(),
            EntityEnum::Module(inner) => inner.get_dtype(),
        }
    }

    fn get_def<E: Environ>(&self, env: &E) -> (def: Option<OpId>) {
        match self {
            EntityEnum::Wire(inner) => inner.get_def(env),
            EntityEnum::Module(inner) => inner.get_def(env),
        }
    }

    fn get_uses<E: Environ>(&self, env: &E) -> (uses: Vec<OpId>) {
        match self {
            EntityEnum::Wire(inner) => inner.get_uses(env),
            EntityEnum::Module(inner) => inner.get_uses(env),
        }
    }

    fn as_id(&self) -> (handle: EntityId) {
        match self {
            EntityEnum::Wire(inner) => inner.as_id(),
            EntityEnum::Module(inner) => inner.as_id(),
        }
    }

    fn get_parent(&self) -> (parent: Option<RegionId>) {
        match self {
            EntityEnum::Wire(inner) => inner.get_parent(),
            EntityEnum::Module(inner) => inner.get_parent(),
        }
    }

    fn set_parent(&mut self, parent: RegionId)
        ensures
            *final(self) == old(self).with_parent(parent),
    {
        match self {
            EntityEnum::Wire(inner) => inner.set_parent(parent),
            EntityEnum::Module(inner) => inner.set_parent(parent),
        }
    }

    fn get_attrs(&self) -> (attrs: Vec<(String, AttributeEnum)>) {
        match self {
            EntityEnum::Wire(inner) => inner.get_attrs(),
            EntityEnum::Module(inner) => inner.get_attrs(),
        }
    }
}

/// An entity that was just built names itself by the unassigned handle, and
/// an entity that was given an identifier names itself by the handle of that
/// identifier, whichever kind it is and whatever it carried before.
pub proof fn lemma_handle_follows_identifier(
    dtype: Option<DataTypeEnum>,
    name: Option<StringAttr>,
    entity: EntityEnum,
    id: usize,
)
    ensures
        EntityId(EntityEnum::Wire(Wire::spec_new(dtype, name)).spec_id()) == EntityId::unassigned(),
        EntityId(EntityEnum::Module(Module::spec_new(dtype, name)).spec_id())
            == EntityId::unassigned(),
        EntityId(entity.with_id(id).spec_id()) == EntityId(id),
{
}

/// An entity that was just built is attached to no region. Attaching it
/// shows the region it was attached to, and attaching it again replaces the
/// first region by the second: nothing of the first is kept.
pub proof fn lemma_parent_is_overwritten(
    dtype: Option<DataTypeEnum>,
    name: Option<StringAttr>,
    entity: EntityEnum,
    first: RegionId,
    second: RegionId,
)
    ensures
        EntityEnum::Wire(Wire::spec_new(dtype, name)).spec_parent() is None,
        EntityEnum::Module(Module::spec_new(dtype, name)).spec_parent() is None,
        entity.with_parent(first).spec_parent() == Some(first),
        entity.with_parent(first).with_parent(second).spec_parent() == Some(second),
        entity.with_parent(first).with_parent(second) == entity.with_parent(second),
{
}

/// Assigning an identifier touches nothing but the identifier, and attaching
/// to a region nothing but the attachment. An attachment, once made, is
/// therefore never cleared.
pub proof fn lemma_updates_keep_the_rest(entity: EntityEnum, id: usize, parent: RegionId)
    ensures
        entity.with_id(id).spec_parent() == entity.spec_parent(),
        entity.with_id(id).spec_dtype() == entity.spec_dtype(),
        entity.with_id(id).spec_attrs() == entity.spec_attrs(),
        entity.with_parent(parent).spec_id() == entity.spec_id(),
        entity.with_parent(parent).spec_dtype() == entity.spec_dtype(),
        entity.with_parent(parent).spec_attrs() == entity.spec_attrs(),
        entity is Wire <==> entity.with_id(id) is Wire,
        entity is Wire <==> entity.with_parent(parent) is Wire,
{
}

/// An entity carries the static type it was built with, and its attributes
/// are exactly those it was built with: `name` if a name was supplied and
/// nothing if none was.
pub proof fn lemma_new_shows_what_was_supplied(
    dtype: Option<DataTypeEnum>,
    name: Option<StringAttr>,
)
    ensures
        Wire::spec_new(dtype, name).spec_dtype() == dtype,
        Module::spec_new(dtype, name).spec_dtype() == dtype,
        Wire::spec_new(dtype, name).spec_attrs() == match name {
            Some(inner) => seq![("name"@, AttributeEnum::StringAttr(inner))],
            None => Seq::empty(),
        },
        Module::spec_new(dtype, name).spec_attrs() == Wire::spec_new(dtype, name).spec_attrs(),
{
    lemma_present_one("name"@, stored(name));
}

/// A wire put into the union comes back out as it went in, and cannot be
/// taken out as a module.
pub proof fn lemma_wire_round_trip(wire: Wire)
    ensures
        EntityEnum::from_spec(wire) is Wire,
        EntityEnum::from_spec(wire).spec_into_wire() == wire,
        !(EntityEnum::from_spec(wire) is Module),
{
}

/// A module put into the union comes back out as it went in, and cannot be
/// taken out as a wire.
pub proof fn lemma_module_round_trip(module: Module)
    ensures
        EntityEnum::from_spec(module) is Module,
        EntityEnum::from_spec(module).spec_into_module() == module,
        !(EntityEnum::from_spec(module) is Wire),
{
}

/// The union shows of an entity what the entity shows of itself.
pub proof fn lemma_union_shows_the_active_kind(wire: Wire, module: Module)
    ensures
        EntityEnum::from_spec(wire).spec_id() == wire.spec_id(),
        EntityEnum::from_spec(wire).spec_dtype() == wire.spec_dtype(),
        EntityEnum::from_spec(wire).spec_parent() == wire.spec_parent(),
        EntityEnum::from_spec(wire).spec_attrs() == wire.spec_attrs(),
        EntityEnum::from_spec(module).spec_id() == module.spec_id(),
        EntityEnum::from_spec(module).spec_dtype() == module.spec_dtype(),
        EntityEnum::from_spec(module).spec_parent() == module.spec_parent(),
        EntityEnum::from_spec(module).spec_attrs() == module.spec_attrs(),
{
}

} // verus!
