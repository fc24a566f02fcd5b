//! Handles to operations.

use vstd::prelude::*;

use crate::common::Id;

verus! {

/// A copyable reference to an operation owned by an environment.
#[derive(Clone, Copy, PartialEq, Eq, Structural, Debug)]
pub struct OpId(pub usize);

impl Id for OpId {
    open spec fn spec_id(&self) -> usize {
        self.0
    }

    fn id(&self) -> (id: usize) {
        self.0
    }

    fn set_id(&mut self, id: usize)
        ensures
            *final(self) == OpId(id),
    {
        self.0 = id
    }
}

impl From<usize> for OpId {
    fn from(value: usize) -> (handle: Self) {
        Self(value)
    }
}

impl vstd::std_specs::convert::FromSpecImpl<usize> for OpId {
    open spec fn obeys_from_spec() -> bool {
        true
    }

    open spec fn from_spec(value: usize) -> Self {
        OpId(value)
    }
}

} // verus!
