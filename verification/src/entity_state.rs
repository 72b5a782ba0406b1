//! The life-cycle state of an entity within a catalog.
use vstd::prelude::*;

verus! {

/// Represents the state of an entity within the catalog.
#[derive(Debug, Default, PartialEq, Eq, Structural, PartialOrd, Ord, Clone, Copy, Hash)]
pub enum EntityState {
    /// The entity is newly created and has not been persisted.
    #[default]
    New,
    /// The state of the entity is unknown.
    Unknown,
    /// The entity has been loaded from the database.
    Loaded,
    /// The entity is marked for deletion.
    ToDelete,
}

} // verus!
