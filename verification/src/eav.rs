//! The trait of types that map to and from entities.
use vstd::prelude::*;

use crate::entity::Entity;

verus! {

/// A trait for types that can be represented as an Entity-Attribute-Value model.
///
/// A type converts to and from the generic [`Entity`] representation, and
/// names its own class.
pub trait EAV where Self: TryFrom<Entity>, Self: TryInto<Entity> {
    /// Returns the class name of the type.
    ///
    /// This is used to distinguish between different types of entities in the database.
    fn class() -> &'static str;
}

} // verus!
