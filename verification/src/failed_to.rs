//! The failures that the library reports.
use vstd::prelude::*;
use vstd::std_specs::cmp::PartialEqSpecImpl;
use vstd::std_specs::convert::FromSpecImpl;

use crate::sqlite;

verus! {

/// Represents the possible failures that can occur in the library.
///
/// Two failures are equal when they are of the same kind: the payloads of
/// `ExecutePredicate` and `SQLite` are not compared.
#[derive(Debug)]
pub enum FailedTo {
    /// Failed to compose filter statement
    ComposeFilter,
    /// Failed to convert from Entity to type.
    ConvertEntity,
    /// Failed to convert from type to Entity.
    ConvertObject,
    /// Failed to convert from Value to type.
    ConvertValue,
    /// Failed to execute predicate to mutate an item: the text of each error
    /// that the predicate returned.
    ExecutePredicate(Vec<String>),
    /// Failed to initialize the database.
    InitDatabase,
    /// Failed to load data from the database.
    LoadFromDB,
    /// Failed to lock catalog in a multithread environment.
    LockCatalog,
    /// Failed to map a database row to an attribute.
    MapAttribute,
    /// Failed to map a database row to an entity.
    MapEntity,
    /// Failed to persist the catalog to the database.
    PersistCatalog,
    /// A failure originating from the underlying SQLite implementation.
    SQLite(sqlite::FailedTo),
}

/// The kind of a failure, one number per variant.
pub open spec fn kind(f: FailedTo) -> int {
    match f {
        FailedTo::ComposeFilter => 0,
        FailedTo::ConvertEntity => 1,
        FailedTo::ConvertObject => 2,
        FailedTo::ConvertValue => 3,
        FailedTo::ExecutePredicate(_) => 4,
        FailedTo::InitDatabase => 5,
        FailedTo::LoadFromDB => 6,
        FailedTo::LockCatalog => 7,
        FailedTo::MapAttribute => 8,
        FailedTo::MapEntity => 9,
        FailedTo::PersistCatalog => 10,
        FailedTo::SQLite(_) => 11,
    }
}

impl FailedTo {
    /// The kind of this failure, one number per variant (see [`kind`]).
    fn kind_of(&self) -> (k: u8)
        ensures
            k == kind(*self),
    {
        match self {
            FailedTo::ComposeFilter => 0,
            FailedTo::ConvertEntity => 1,
            FailedTo::ConvertObject => 2,
            FailedTo::ConvertValue => 3,
            FailedTo::ExecutePredicate(_) => 4,
            FailedTo::InitDatabase => 5,
            FailedTo::LoadFromDB => 6,
            FailedTo::LockCatalog => 7,
            FailedTo::MapAttribute => 8,
            FailedTo::MapEntity => 9,
            FailedTo::PersistCatalog => 10,
            FailedTo::SQLite(_) => 11,
        }
    }
}

impl PartialEq for FailedTo {
    fn eq(&self, other: &FailedTo) -> (r: bool) {
        self.kind_of() == other.kind_of()
    }
}

impl PartialEqSpecImpl for FailedTo {
    open spec fn obeys_eq_spec() -> bool {
        true
    }

    open spec fn eq_spec(&self, other: &FailedTo) -> bool {
        kind(*self) == kind(*other)
    }
}

impl From<sqlite::FailedTo> for FailedTo {
    fn from(value: sqlite::FailedTo) -> (r: Self) {
        FailedTo::SQLite(value)
    }
}

impl FromSpecImpl<sqlite::FailedTo> for FailedTo {
    open spec fn obeys_from_spec() -> bool {
        true
    }

    open spec fn from_spec(v: sqlite::FailedTo) -> FailedTo {
        FailedTo::SQLite(v)
    }
}

} // verus!
