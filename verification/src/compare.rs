//! Equality and order of values and conditions.
use core::cmp::Ordering;
use vstd::prelude::*;
use vstd::std_specs::cmp::PartialEqSpecImpl;
use vstd::std_specs::cmp::PartialOrdSpecImpl;

use crate::condition::{condition_eq, condition_sign, condition_sign_of, conditions_equal, Condition};
use crate::value::{Sign, value_eq, value_sign, value_sign_of, values_equal, Value};

verus! {

/// The ordering that a sign stands for.
pub open spec fn ordering_of(s: Sign) -> Ordering {
    match s {
        Sign::Less => Ordering::Less,
        Sign::Equal => Ordering::Equal,
        Sign::Greater => Ordering::Greater,
    }
}

/// The ordering that an optional sign stands for.
pub open spec fn optional_ordering(s: Option<Sign>) -> Option<Ordering> {
    match s {
        Some(x) => Some(ordering_of(x)),
        None => None,
    }
}

/// The ordering of a sign computed in code.
fn ordering_from(s: Option<Sign>) -> (r: Option<Ordering>)
    ensures
        r == optional_ordering(s),
{
    match s {
        Some(Sign::Less) => Some(Ordering::Less),
        Some(Sign::Equal) => Some(Ordering::Equal),
        Some(Sign::Greater) => Some(Ordering::Greater),
        None => None,
    }
}

impl PartialEq for Value {
    fn eq(&self, other: &Value) -> (r: bool) {
        values_equal(self, other)
    }
}

impl PartialEqSpecImpl for Value {
    open spec fn obeys_eq_spec() -> bool {
        true
    }

    open spec fn eq_spec(&self, other: &Value) -> bool {
        value_eq(self@, other@)
    }
}

impl PartialOrd for Value {
    fn partial_cmp(&self, other: &Value) -> (r: Option<Ordering>) {
        ordering_from(value_sign_of(self, other))
    }
}

impl PartialOrdSpecImpl for Value {
    open spec fn obeys_partial_cmp_spec() -> bool {
        true
    }

    open spec fn partial_cmp_spec(&self, other: &Value) -> Option<Ordering> {
        optional_ordering(value_sign(self@, other@))
    }
}

impl<'a> PartialEq for Condition<'a> {
    fn eq(&self, other: &Condition<'a>) -> (r: bool) {
        conditions_equal(self, other)
    }
}

impl<'a> PartialEqSpecImpl for Condition<'a> {
    open spec fn obeys_eq_spec() -> bool {
        true
    }

    open spec fn eq_spec(&self, other: &Condition<'a>) -> bool {
        condition_eq(self@, other@)
    }
}

impl<'a> PartialOrd for Condition<'a> {
    fn partial_cmp(&self, other: &Condition<'a>) -> (r: Option<Ordering>) {
        ordering_from(condition_sign_of(self, other))
    }
}

impl<'a> PartialOrdSpecImpl for Condition<'a> {
    open spec fn obeys_partial_cmp_spec() -> bool {
        true
    }

    open spec fn partial_cmp_spec(&self, other: &Condition<'a>) -> Option<Ordering> {
        optional_ordering(condition_sign(self@, other@))
    }
}

} // verus!
