//! A lightweight Entity-Attribute-Value (EAV) data model.
//!
//! An [`Entity`] holds an id, a class, an optional subclass and a map of
//! attributes to [`Value`]s. A [`Filter`] describes which entities to load
//! from a database; a [`Catalog`] holds the entities in memory.
pub mod attribute;
pub mod catalog;
pub mod compare;
pub mod comparison;
pub mod condition;
pub mod eav;
pub mod entity;
pub mod entity_state;
pub mod failed_to;
pub mod filter;
pub mod laws;
pub mod order_laws;
pub mod sqlite;
pub mod value;

pub use crate::attribute::Attribute;
pub use crate::catalog::Catalog;
pub use crate::comparison::Comparison;
pub use crate::condition::Condition;
pub use crate::eav::EAV;
pub use crate::entity::Entity;
pub use crate::entity::EntityView;
pub use crate::entity_state::EntityState;
pub use crate::failed_to::FailedTo;
pub use crate::filter::Filter;
pub use crate::value::Value;
pub use crate::value::ValueView;
