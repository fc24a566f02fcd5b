//! The identifier capability shared by every node and handle.

use vstd::prelude::*;

verus! {

/// A stable integer identity.
///
/// The environment that owns a node assigns its identifier when the node is
/// inserted; until then the identifier is `0`. Calling `set_id` on a node
/// that already lives in an environment is a usage error which the type
/// system does not guard against.
pub trait Id {
    /// The identifier this value currently carries.
    spec fn spec_id(&self) -> usize;

    /// Reads the identifier.
    fn id(&self) -> (id: usize)
        ensures
            id == self.spec_id(),
    ;

    /// Assigns the identifier. This is for the owning environment to call.
    fn set_id(&mut self, id: usize)
        ensures
            final(self).spec_id() == id,
    ;
}

} // verus!
