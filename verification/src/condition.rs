//! The value side of a filter condition.
use vstd::prelude::*;

use crate::value::{Sign, bool_sign, real_eq, real_is_nan, real_key_of, real_sign, reals_equal, sign, text_sign, text_sign_of};

verus! {

/// Represents the value part of a `Filter` condition.
///
/// Each variant holds a specific data type to be used in a comparison when
/// querying the database.
#[derive(Debug, Clone, Copy)]
pub enum Condition<'a> {
    /// A boolean value (`true` or `false`).
    Bool(bool),
    /// A floating-point number, held as the IEEE-754 bit pattern of an `f64`.
    Real(u64),
    /// A signed integer (`i64`).
    SignedInt(i64),
    /// A text value (`&str`).
    Text(&'a str),
    /// An unsigned integer (`u64`), stored as `i64` for SQLite compatibility.
    UnsignedInt(i64),
}

/// The mathematical content of a [`Condition`].
pub enum ConditionView {
    Bool(bool),
    Real(u64),
    SignedInt(i64),
    Text(Seq<char>),
    UnsignedInt(i64),
}

impl<'a> View for Condition<'a> {
    type V = ConditionView;

    open spec fn view(&self) -> ConditionView {
        match self {
            Condition::Bool(b) => ConditionView::Bool(*b),
            Condition::Real(bits) => ConditionView::Real(*bits),
            Condition::SignedInt(i) => ConditionView::SignedInt(*i),
            Condition::Text(s) => ConditionView::Text(s@),
            Condition::UnsignedInt(i) => ConditionView::UnsignedInt(*i),
        }
    }
}

/// The place of a condition's kind in the order of the variants.
pub open spec fn condition_rank(c: ConditionView) -> int {
    match c {
        ConditionView::Bool(_) => 0,
        ConditionView::Real(_) => 1,
        ConditionView::SignedInt(_) => 2,
        ConditionView::Text(_) => 3,
        ConditionView::UnsignedInt(_) => 4,
    }
}

/// Two conditions are equal: of the same kind, with equal payloads; reals
/// compare as `f64` numbers do.
pub open spec fn condition_eq(a: ConditionView, b: ConditionView) -> bool {
    match (a, b) {
        (ConditionView::Bool(x), ConditionView::Bool(y)) => x == y,
        (ConditionView::Real(x), ConditionView::Real(y)) => real_eq(x, y),
        (ConditionView::SignedInt(x), ConditionView::SignedInt(y)) => x == y,
        (ConditionView::Text(x), ConditionView::Text(y)) => x == y,
        (ConditionView::UnsignedInt(x), ConditionView::UnsignedInt(y)) => x == y,
        _ => false,
    }
}

/// The order of two conditions: by kind first, then by
/// payload; `None` when both are reals and one of them is a NaN.
pub open spec fn condition_sign(a: ConditionView, b: ConditionView) -> Option<Sign> {
    match (a, b) {
        (ConditionView::Bool(x), ConditionView::Bool(y)) => Some(bool_sign(x, y)),
        (ConditionView::Real(x), ConditionView::Real(y)) => real_sign(x, y),
        (ConditionView::SignedInt(x), ConditionView::SignedInt(y)) => Some(sign(x as int, y as int)),
        (ConditionView::Text(x), ConditionView::Text(y)) => Some(text_sign(x, y)),
        (ConditionView::UnsignedInt(x), ConditionView::UnsignedInt(y)) => Some(sign(x as int, y as int)),
        _ => Some(sign(condition_rank(a), condition_rank(b))),
    }
}

/// Whether `a` is less than, equal to or greater than `b`.
fn signed_order(a: i64, b: i64) -> (r: Sign)
    ensures
        r == sign(a as int, b as int),
{
    if a < b {
        Sign::Less
    } else if a == b {
        Sign::Equal
    } else {
        Sign::Greater
    }
}

/// The place of a condition's kind in the order of the variants.
fn condition_rank_of(c: &Condition) -> (r: i8)
    ensures
        r == condition_rank(c@),
{
    match c {
        Condition::Bool(_) => 0,
        Condition::Real(_) => 1,
        Condition::SignedInt(_) => 2,
        Condition::Text(_) => 3,
        Condition::UnsignedInt(_) => 4,
    }
}

/// Whether two conditions are equal (see [`condition_eq`]).
pub fn conditions_equal(a: &Condition, b: &Condition) -> (r: bool)
    ensures
        r == condition_eq(a@, b@),
{
    match (a, b) {
        (Condition::Bool(x), Condition::Bool(y)) => *x == *y,
        (Condition::Real(x), Condition::Real(y)) => reals_equal(*x, *y),
        (Condition::SignedInt(x), Condition::SignedInt(y)) => *x == *y,
        (Condition::Text(x), Condition::Text(y)) => (*x).to_owned() == (*y).to_owned(),
        (Condition::UnsignedInt(x), Condition::UnsignedInt(y)) => *x == *y,
        _ => false,
    }
}

/// The order of two conditions, or `None` when both are
/// reals and one of them is a NaN (see [`condition_sign`]).
pub fn condition_sign_of(a: &Condition, b: &Condition) -> (r: Option<Sign>)
    ensures
        match r {
            Some(s) => condition_sign(a@, b@) == Some(s),
            None => condition_sign(a@, b@) is None,
        },
{
    match (a, b) {
        (Condition::Bool(x), Condition::Bool(y)) => Some(
            if *x == *y {
                Sign::Equal
            } else if !*x {
                Sign::Less
            } else {
                Sign::Greater
            },
        ),
        (Condition::Real(x), Condition::Real(y)) => {
            if real_is_nan(*x) || real_is_nan(*y) {
                None
            } else {
                Some(signed_order(real_key_of(*x), real_key_of(*y)))
            }
        },
        (Condition::SignedInt(x), Condition::SignedInt(y)) => Some(signed_order(*x, *y)),
        (Condition::Text(x), Condition::Text(y)) => Some(text_sign_of(*x, *y)),
        (Condition::UnsignedInt(x), Condition::UnsignedInt(y)) => Some(signed_order(*x, *y)),
        _ => Some(signed_order(condition_rank_of(a) as i64, condition_rank_of(b) as i64)),
    }
}

} // verus!
