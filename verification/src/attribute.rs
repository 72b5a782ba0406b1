//! An attribute of an entity: an id and a value.
use vstd::prelude::*;

use crate::value::Value;

verus! {

/// Represents an attribute of an entity, consisting of an ID and a `Value`.
#[derive(Debug, PartialEq)]
pub struct Attribute {
    /// The unique identifier for this attribute (e.g., "name", "price").
    pub id: String,
    /// The value of the attribute.
    pub value: Value,
}

impl Clone for Attribute {
    fn clone(&self) -> (r: Self)
        ensures
            r == *self,
    {
        Attribute { id: self.id.clone(), value: self.value.clone() }
    }
}

impl Attribute {
    /// Creates a new `Attribute` with the given id, holding what `into`
    /// makes of `value`.
    pub fn new<V: Into<Value>>(id: &str, value: V) -> (a: Attribute)
        ensures
            a.id@ == id@,
            call_ensures(V::into, (value,), a.value),
    {
        Attribute { id: id.to_owned(), value: value.into() }
    }
}

} // verus!
