//! A catalog of entities, held in memory for a database file.
use vstd::prelude::*;

use crate::entity::Entity;
use crate::failed_to::FailedTo;

verus! {

/// Represents a catalog of entities that can be persisted to a SQLite database.
///
/// The `Catalog` holds entities in memory, together with the path of the
/// database file that it is persisted to and loaded from.
#[derive(Debug)]
pub struct Catalog {
    /// The path of the SQLite database file that this catalog manages.
    pub path: String,
    /// Whether the database has been initialized.
    pub already_init: bool,
    /// The in-memory cache of entities.
    pub items: Vec<Entity>,
}

/// No two entities of `items` have the same id: the catalog holds at most
/// one entity per id.
pub open spec fn one_entity_per_id(items: Seq<Entity>) -> bool {
    forall|i: int, j: int|
        0 <= i < items.len() && 0 <= j < items.len() && i != j ==> #[trigger] items[i].id@
            != #[trigger] items[j].id@
}

impl Default for Catalog {
    /// An empty catalog with an empty path, not yet initialized.
    fn default() -> (c: Self)
        ensures
            c.path@ == Seq::<char>::empty(),
            !c.already_init,
            c.items@.len() == 0,
            one_entity_per_id(c.items@),
    {
        Catalog { path: String::new(), already_init: false, items: Vec::new() }
    }
}

impl Catalog {
    /// Creates a new, empty in-memory `Catalog` for the database at the given path.
    ///
    /// This does not create the database file or connect to it: it only
    /// initializes an empty catalog in memory, not yet initialized.
    pub fn new(path: &str) -> (c: Self)
        ensures
            c.path@ == path@,
            !c.already_init,
            c.items@.len() == 0,
            one_entity_per_id(c.items@),
    {
        Catalog { path: path.to_owned(), already_init: false, items: Vec::new() }
    }

    /// Runs `exec` on the items of the catalog and returns what it returns.
    pub fn with_items<R, F>(&self, exec: F) -> (r: Result<R, FailedTo>)
        where
            F: FnOnce(&Vec<Entity>) -> Result<R, FailedTo>,
        requires
            exec.requires((&self.items,)),
        ensures
            exec.ensures((&self.items,), r),
    {
        exec(&self.items)
    }
}

} // verus!
