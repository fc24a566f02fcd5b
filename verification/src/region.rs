//! Regions: the ordered scopes that operations and entities are nested in.

use vstd::prelude::*;

use crate::common::Id;
use crate::entity::{EntityId, RegionId};
use crate::environ::Environ;
use crate::operation::OpId;
use crate::seq_facts::{lemma_contains_after_push, lemma_push_fresh_keeps_distinct};

verus! {

/// An ordered scope: the operations and entities nested directly in it, each
/// named by its handle, in the order in which they were added.
///
/// The order is significant. It drives the textual and structural nesting of
/// the children, so the two lists are sequences and never sets. A region
/// never owns the nodes themselves.
///
/// No handle occurs twice among the children of a region. The fields are
/// private so that this holds of every region there is.
#[derive(Debug, PartialEq)]
pub struct Region {
    id: usize,
    op_children: Vec<OpId>,
    entity_children: Vec<EntityId>,
}

/// The mathematical content of a [`Region`].
pub struct RegionView {
    pub id: usize,
    pub op_children: Seq<OpId>,
    pub entity_children: Seq<EntityId>,
}

impl RegionView {
    /// A region with no identifier assigned and no children.
    pub open spec fn empty() -> RegionView {
        RegionView { id: 0, op_children: Seq::empty(), entity_children: Seq::empty() }
    }

    /// No handle occurs twice among the children.
    pub open spec fn wf(self) -> bool {
        &&& self.op_children.no_duplicates()
        &&& self.entity_children.no_duplicates()
    }

    /// Whether `op` is among the operation children.
    pub open spec fn has_op_child(self, op: OpId) -> bool {
        self.op_children.contains(op)
    }

    /// Whether `entity` is among the entity children.
    pub open spec fn has_entity_child(self, entity: EntityId) -> bool {
        self.entity_children.contains(entity)
    }

    /// The region with `op` appended to its operation children.
    pub open spec fn add_op_child(self, op: OpId) -> RegionView {
        RegionView { op_children: self.op_children.push(op), ..self }
    }

    /// The region with `entity` appended to its entity children.
    pub open spec fn add_entity_child(self, entity: EntityId) -> RegionView {
        RegionView { entity_children: self.entity_children.push(entity), ..self }
    }
}

impl View for Region {
    type V = RegionView;

    closed spec fn view(&self) -> RegionView {
        RegionView {
            id: self.id,
            op_children: self.op_children@,
            entity_children: self.entity_children@,
        }
    }
}

impl Id for Region {
    open spec fn spec_id(&self) -> usize {
        self@.id
    }

    fn id(&self) -> (id: usize) {
        self.id
    }

    fn set_id(&mut self, id: usize)
        ensures
            final(self)@ == (RegionView { id, ..old(self)@ }),
    {
        proof {
            use_type_invariant(&*self);
        }
        self.id = id
    }
}

impl Clone for Region {
    fn clone(&self) -> (copy: Self)
        ensures
            copy@ == self@,
    {
        proof {
            use_type_invariant(self);
        }
        let op_children = self.op_children.clone();
        let entity_children = self.entity_children.clone();
        assert(op_children@ =~= self.op_children@);
        assert(entity_children@ =~= self.entity_children@);
        Region { id: self.id, op_children, entity_children }
    }
}

impl Default for Region {
    fn default() -> (region: Self)
        ensures
            region@ == RegionView::empty(),
    {
        Region::new()
    }
}

impl Region {
    /// What holds of every region: no handle occurs twice among its children.
    #[verifier::type_invariant]
    pub open spec fn wf(&self) -> bool {
        self@.wf()
    }

    /// The operation children, in the order in which they were added.
    pub fn op_children(&self) -> (children: &Vec<OpId>)
        ensures
            children@ == self@.op_children,
            children@.no_duplicates(),
    {
        proof {
            use_type_invariant(self);
        }
        &self.op_children
    }

    /// The entity children, in the order in which they were added.
    pub fn entity_children(&self) -> (children: &Vec<EntityId>)
        ensures
            children@ == self@.entity_children,
            children@.no_duplicates(),
    {
        proof {
            use_type_invariant(self);
        }
        &self.entity_children
    }

    /// The operation that structurally owns this region, if the region is
    /// attached to one.
    pub fn get_use<E: Environ>(&self, env: &E) -> (owner: Option<OpId>)
        ensures
            call_ensures(E::get_region_use, (env, RegionId(self@.id)), owner),
    {
        env.get_region_use(self.as_id())
    }

    /// The handle that names this region.
    pub fn as_id(&self) -> (handle: RegionId)
        ensures
            handle == RegionId(self@.id),
    {
        RegionId(self.id)
    }

    /// A region with no identifier assigned and no children.
    pub fn new() -> (region: Self)
        ensures
            region@ == RegionView::empty(),
            region@.wf(),
    {
        Self { id: 0, op_children: Vec::new(), entity_children: Vec::new() }
    }

    /// Whether `op` is already among the operation children.
    pub fn has_op_child(&self, op: OpId) -> (found: bool)
        ensures
            found == self@.has_op_child(op),
    {
        let mut i: usize = 0;
        while i < self.op_children.len()
            invariant
                i <= self.op_children.len(),
                forall|j: int| 0 <= j < i ==> self.op_children@[j] != op,
            decreases self.op_children.len() - i,
        {
            if self.op_children[i].id() == op.id() {
                return true;
            }
            i += 1;
        }
        false
    }

    /// Whether `entity` is already among the entity children.
    pub fn has_entity_child(&self, entity: EntityId) -> (found: bool)
        ensures
            found == self@.has_entity_child(entity),
    {
        let mut i: usize = 0;
        while i < self.entity_children.len()
            invariant
                i <= self.entity_children.len(),
                forall|j: int| 0 <= j < i ==> self.entity_children@[j] != entity,
            decreases self.entity_children.len() - i,
        {
            if self.entity_children[i].id() == entity.id() {
                return true;
            }
            i += 1;
        }
        false
    }

    /// Appends `op` to the operation children.
    ///
    /// Adding a handle that the region already holds is a bug in the caller,
    /// not a condition to recover from: the precondition rules it out. The
    /// handle is looked for all the same, so that a caller that was not
    /// verified is stopped before it spoils the region.
    pub fn add_op_child(&mut self, op: OpId)
        requires
            !old(self)@.has_op_child(op),
        ensures
            final(self)@ == old(self)@.add_op_child(op),
    {
        proof {
            use_type_invariant(&*self);
            lemma_add_op_child_keeps_wf(self@, op);
        }
        if self.has_op_child(op) {
            vstd::pervasive::unreached()
        } else {
            let mut children = Vec::new();
            std::mem::swap(&mut children, &mut self.op_children);
            children.push(op);
            self.op_children = children;
        }
    }

    /// Appends `entity` to the entity children.
    ///
    /// Adding a handle that the region already holds is a bug in the caller,
    /// not a condition to recover from: the precondition rules it out. The
    /// handle is looked for all the same, so that a caller that was not
    /// verified is stopped before it spoils the region.
    pub fn add_entity_child(&mut self, entity: EntityId)
        requires
            !old(self)@.has_entity_child(entity),
        ensures
            final(self)@ == old(self)@.add_entity_child(entity),
    {
        proof {
            use_type_invariant(&*self);
            lemma_add_entity_child_keeps_wf(self@, entity);
        }
        if self.has_entity_child(entity) {
            vstd::pervasive::unreached()
        } else {
            let mut children = Vec::new();
            std::mem::swap(&mut children, &mut self.entity_children);
            children.push(entity);
            self.entity_children = children;
        }
    }
}

/// A region holds an operation after one was added exactly if it is the one
/// added or the region held it before. Its entity children and its
/// identifier are untouched.
pub proof fn lemma_op_children_after_add(region: RegionView, op: OpId, other: OpId)
    ensures
        region.add_op_child(op).has_op_child(other) <==> other == op || region.has_op_child(other),
        region.add_op_child(op).entity_children == region.entity_children,
        region.add_op_child(op).id == region.id,
{
    lemma_contains_after_push(region.op_children, op, other);
}

/// A region holds an entity after one was added exactly if it is the one
/// added or the region held it before. Its operation children and its
/// identifier are untouched.
pub proof fn lemma_entity_children_after_add(region: RegionView, entity: EntityId, other: EntityId)
    ensures
        region.add_entity_child(entity).has_entity_child(other) <==> other == entity
            || region.has_entity_child(other),
        region.add_entity_child(entity).op_children == region.op_children,
        region.add_entity_child(entity).id == region.id,
{
    lemma_contains_after_push(region.entity_children, entity, other);
}

/// A region in which no handle occurs twice stays so when it takes an
/// operation that it does not hold.
pub proof fn lemma_add_op_child_keeps_wf(region: RegionView, op: OpId)
    requires
        region.wf(),
        !region.has_op_child(op),
    ensures
        region.add_op_child(op).wf(),
{
    lemma_push_fresh_keeps_distinct(region.op_children, op);
}

/// A region in which no handle occurs twice stays so when it takes an entity
/// that it does not hold.
pub proof fn lemma_add_entity_child_keeps_wf(region: RegionView, entity: EntityId)
    requires
        region.wf(),
        !region.has_entity_child(entity),
    ensures
        region.add_entity_child(entity).wf(),
{
    lemma_push_fresh_keeps_distinct(region.entity_children, entity);
}

/// Two distinct operation handles that a region does not hold can be added
/// one after the other, and then stand at the end of its operation children
/// in the order in which they were added. The first cannot be added a second
/// time: the region holds it, so the children stay as they are.
pub proof fn lemma_add_two_op_children(region: RegionView, first: OpId, second: OpId)
    requires
        first != second,
        !region.has_op_child(first),
        !region.has_op_child(second),
    ensures
        !region.add_op_child(first).has_op_child(second),
        region.add_op_child(first).add_op_child(second).op_children == region.op_children
            + seq![first, second],
        region.wf() ==> region.add_op_child(first).add_op_child(second).wf(),
        region.add_op_child(first).has_op_child(first),
{
    let one = region.add_op_child(first);
    lemma_op_children_after_add(region, first, second);
    lemma_op_children_after_add(region, first, first);
    if region.wf() {
        lemma_add_op_child_keeps_wf(region, first);
        lemma_add_op_child_keeps_wf(one, second);
    }
    assert(one.add_op_child(second).op_children =~= region.op_children + seq![first, second]);
}

/// Two distinct entity handles that a region does not hold can be added one
/// after the other, and then stand at the end of its entity children in the
/// order in which they were added. The first cannot be added a second time:
/// the region holds it, so the children stay as they are.
pub proof fn lemma_add_two_entity_children(region: RegionView, first: EntityId, second: EntityId)
    requires
        first != second,
        !region.has_entity_child(first),
        !region.has_entity_child(second),
    ensures
        !region.add_entity_child(first).has_entity_child(second),
        region.add_entity_child(first).add_entity_child(second).entity_children
            == region.entity_children + seq![first, second],
        region.wf() ==> region.add_entity_child(first).add_entity_child(second).wf(),
        region.add_entity_child(first).has_entity_child(first),
{
    let one = region.add_entity_child(first);
    lemma_entity_children_after_add(region, first, second);
    lemma_entity_children_after_add(region, first, first);
    if region.wf() {
        lemma_add_entity_child_keeps_wf(region, first);
        lemma_add_entity_child_keeps_wf(one, second);
    }
    assert(one.add_entity_child(second).entity_children =~= region.entity_children
        + seq![first, second]);
}

/// A new region takes any two distinct operation handles, and its children
/// are then exactly those two, in the order in which they were added.
pub proof fn lemma_new_region_takes_two_ops(first: OpId, second: OpId)
    requires
        first != second,
    ensures
        !RegionView::empty().has_op_child(first),
        !RegionView::empty().add_op_child(first).has_op_child(second),
        RegionView::empty().add_op_child(first).add_op_child(second).op_children == seq![
            first,
            second,
        ],
        RegionView::empty().add_op_child(first).add_op_child(second).wf(),
{
    let empty = RegionView::empty();
    lemma_add_two_op_children(empty, first, second);
    assert(empty.op_children + seq![first, second] =~= seq![first, second]);
}

/// A new region takes any two distinct entity handles, and its children are
/// then exactly those two, in the order in which they were added.
pub proof fn lemma_new_region_takes_two_entities(first: EntityId, second: EntityId)
    requires
        first != second,
    ensures
        !RegionView::empty().has_entity_child(first),
        !RegionView::empty().add_entity_child(first).has_entity_child(second),
        RegionView::empty().add_entity_child(first).add_entity_child(second).entity_children
            == seq![first, second],
        RegionView::empty().add_entity_child(first).add_entity_child(second).wf(),
{
    let empty = RegionView::empty();
    lemma_add_two_entity_children(empty, first, second);
    assert(empty.entity_children + seq![first, second] =~= seq![first, second]);
}

} // verus!
