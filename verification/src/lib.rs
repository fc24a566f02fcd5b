//! Building blocks for compiler intermediate representations: identified
//! nodes, copyable handles, value-like entities and the regions that scope
//! them, together with a sample dialect composed by hand on top of them.
//!
//! Nodes never point at each other. They name each other by integer handle
//! and every lookup goes through the environment that owns them.
//!
//! Two things can go wrong, and they are kept apart. Absence is ordinary: an
//! entity without a type, a parent or a defining operation shows `None`. A
//! broken contract is a bug in the caller: adding a handle to a region twice,
//! or taking a kind out of a union that holds another. Those are
//! preconditions, and a verified caller never runs into them.

pub mod attribute;
pub mod circt_naive;
pub mod common;
pub mod entity;
pub mod environ;
pub mod operation;
pub mod region;
pub mod seq_facts;

pub use attribute::{named, present, push_attr};
pub use common::Id;
pub use entity::{Entity, EntityId, RegionId};
pub use environ::Environ;
pub use operation::OpId;
pub use region::{Region, RegionView};
