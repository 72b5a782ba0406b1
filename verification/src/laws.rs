//! Properties of the library that relate several of its operations.
use vstd::prelude::*;
use vstd::std_specs::cmp::PartialEqSpec;
use vstd::std_specs::convert::FromSpec;
use vstd::std_specs::convert::TryFromSpec;

use crate::comparison::Comparison;
use crate::condition::Condition;
use crate::condition::ConditionView;
use crate::entity::{Entity, EntityView};
use crate::failed_to::FailedTo;
use crate::filter::{added_conditions, built, last_class, last_subclass, FilterStep, FilterView};
use crate::value::{decimal, digit_char, is_nan, real_eq, real_key, signed_decimal, text_form, value_eq, Value, ValueView};

verus! {

// ---------------------------------------------------------------------------
// Attributes of an entity.
// ---------------------------------------------------------------------------

/// Reading an attribute gives back what was last written to it, and writing
/// an attribute leaves every other attribute as it was.
pub proof fn law_attribute_read_after_write(e: EntityView, id: Seq<char>, v: ValueView)
    ensures
        e.set_attribute(id, v).attributes.contains_key(id),
        e.set_attribute(id, v).attributes[id] == v,
        forall|k: Seq<char>|
            k != id ==> (#[trigger] e.set_attribute(id, v).attributes.contains_key(k)
                <==> e.attributes.contains_key(k)),
        forall|k: Seq<char>|
            k != id && e.attributes.contains_key(k) ==> #[trigger] e.set_attribute(id, v).attributes[k]
                == e.attributes[k],
{
}

/// An entity holds one value per attribute id: a second write to an id
/// replaces the first, as if only the second had been made.
pub proof fn law_attribute_last_write_wins(e: EntityView, id: Seq<char>, v1: ValueView, v2: ValueView)
    ensures
        e.set_attribute(id, v1).set_attribute(id, v2) == e.set_attribute(id, v2),
{
    assert(e.set_attribute(id, v1).set_attribute(id, v2).attributes =~= e.set_attribute(id, v2).attributes);
}

/// Writes to two different attribute ids can be made in either order.
pub proof fn law_attribute_writes_commute(
    e: EntityView,
    id1: Seq<char>,
    v1: ValueView,
    id2: Seq<char>,
    v2: ValueView,
)
    requires
        id1 != id2,
    ensures
        e.set_attribute(id1, v1).set_attribute(id2, v2) == e.set_attribute(id2, v2).set_attribute(id1, v1),
{
    assert(e.set_attribute(id1, v1).set_attribute(id2, v2).attributes =~= e.set_attribute(id2, v2).set_attribute(
        id1,
        v1,
    ).attributes);
}

/// Writing an attribute leaves the id, state, reference date, class and
/// subclass of the entity as they were.
pub proof fn law_attribute_write_keeps_identity(e: EntityView, id: Seq<char>, v: ValueView)
    ensures
        e.set_attribute(id, v).id == e.id,
        e.set_attribute(id, v).state == e.state,
        e.set_attribute(id, v).ref_date == e.ref_date,
        e.set_attribute(id, v).class == e.class,
        e.set_attribute(id, v).subclass == e.subclass,
{
}

// ---------------------------------------------------------------------------
// Conversions between values and Rust values.
// ---------------------------------------------------------------------------

/// A string stored in a value converts back to the same string.
pub proof fn law_string_round_trip(s: String)
    ensures
        <String as TryFromSpec<Value>>::try_from_spec(<Value as FromSpec<String>>::from_spec(s))
            == Ok::<String, FailedTo>(s),
{
}

/// An unsigned integer stored in a value converts back to the same integer.
pub proof fn law_u32_round_trip(x: u32)
    ensures
        <u32 as TryFromSpec<Value>>::try_from_spec(<Value as FromSpec<u32>>::from_spec(x))
            == Ok::<u32, FailedTo>(x),
{
}

/// A 64-bit unsigned integer stored in a value converts back to the same integer.
pub proof fn law_u64_round_trip(x: u64)
    ensures
        <u64 as TryFromSpec<Value>>::try_from_spec(<Value as FromSpec<u64>>::from_spec(x))
            == Ok::<u64, FailedTo>(x),
{
}

/// A signed integer stored in a value converts back to the same integer.
pub proof fn law_i64_round_trip(x: i64)
    ensures
        <i64 as TryFromSpec<Value>>::try_from_spec(<Value as FromSpec<i64>>::from_spec(x))
            == Ok::<i64, FailedTo>(x),
{
}

/// A 32-bit signed integer stored in a value converts back to the same integer.
pub proof fn law_i32_round_trip(x: i32)
    ensures
        <i32 as TryFromSpec<Value>>::try_from_spec(<Value as FromSpec<i32>>::from_spec(x))
            == Ok::<i32, FailedTo>(x),
{
}

/// A boolean stored in a value converts back to the same boolean.
pub proof fn law_bool_round_trip(b: bool)
    ensures
        <bool as TryFromSpec<Value>>::try_from_spec(<Value as FromSpec<bool>>::from_spec(b))
            == Ok::<bool, FailedTo>(b),
{
}

/// A value converts only into the Rust type of its own kind, and an integer
/// only into a type that holds it; any other conversion is refused with
/// `ConvertValue`.
pub proof fn law_conversion_refusals(v: Value, u: u64, i: i64)
    ensures
        v !is Text ==> <String as TryFromSpec<Value>>::try_from_spec(v) == Err::<String, FailedTo>(
            FailedTo::ConvertValue,
        ),
        v !is UnsignedInt ==> <u64 as TryFromSpec<Value>>::try_from_spec(v) == Err::<u64, FailedTo>(
            FailedTo::ConvertValue,
        ),
        v !is UnsignedInt ==> <u32 as TryFromSpec<Value>>::try_from_spec(v) == Err::<u32, FailedTo>(
            FailedTo::ConvertValue,
        ),
        v !is SignedInt ==> <i64 as TryFromSpec<Value>>::try_from_spec(v) == Err::<i64, FailedTo>(
            FailedTo::ConvertValue,
        ),
        v !is SignedInt ==> <i32 as TryFromSpec<Value>>::try_from_spec(v) == Err::<i32, FailedTo>(
            FailedTo::ConvertValue,
        ),
        v !is Bool ==> <bool as TryFromSpec<Value>>::try_from_spec(v) == Err::<bool, FailedTo>(
            FailedTo::ConvertValue,
        ),
        u > u32::MAX ==> <u32 as TryFromSpec<Value>>::try_from_spec(Value::UnsignedInt(u)) == Err::<
            u32,
            FailedTo,
        >(FailedTo::ConvertValue),
        i < i32::MIN || i > i32::MAX ==> <i32 as TryFromSpec<Value>>::try_from_spec(
            Value::SignedInt(i),
        ) == Err::<i32, FailedTo>(FailedTo::ConvertValue),
{
}

// ---------------------------------------------------------------------------
// The text form of a value.
// ---------------------------------------------------------------------------

/// The number that a decimal digit character stands for.
pub open spec fn digit_value(c: char) -> int {
    if c == '0' {
        0
    } else if c == '1' {
        1
    } else if c == '2' {
        2
    } else if c == '3' {
        3
    } else if c == '4' {
        4
    } else if c == '5' {
        5
    } else if c == '6' {
        6
    } else if c == '7' {
        7
    } else if c == '8' {
        8
    } else {
        9
    }
}

/// The number that a sequence of decimal digits stands for.
pub open spec fn read_decimal(s: Seq<char>) -> int
    decreases s.len(),
{
    if s.len() == 0 {
        0
    } else {
        read_decimal(s.drop_last()) * 10 + digit_value(s.last())
    }
}

/// The integer that a decimal text with an optional leading `-` stands for.
pub open spec fn read_signed_decimal(s: Seq<char>) -> int {
    if s.len() > 0 && s[0] == '-' {
        -read_decimal(s.drop_first())
    } else {
        read_decimal(s)
    }
}

/// Each character of a decimal representation is a digit, the first one is
/// not `0` unless the number is, and reading it back gives the number.
pub proof fn law_decimal_round_trip(n: nat)
    ensures
        read_decimal(decimal(n)) == n,
        decimal(n).len() >= 1,
        forall|i: int| 0 <= i < decimal(n).len() ==> '0' <= #[trigger] decimal(n)[i] <= '9',
        n > 0 ==> decimal(n)[0] != '0',
    decreases n,
{
    if n < 10 {
        assert(digit_value(digit_char(n)) == n);
        assert(decimal(n).drop_last() =~= Seq::<char>::empty());
        assert(read_decimal(Seq::<char>::empty()) == 0);
        assert(read_decimal(decimal(n)) == read_decimal(decimal(n).drop_last()) * 10 + digit_value(
            decimal(n).last(),
        ));
    } else {
        law_decimal_round_trip(n / 10);
        let d = (n % 10) as nat;
        assert(digit_value(digit_char(d)) == d);
        assert(decimal(n).drop_last() =~= decimal(n / 10));
        assert(decimal(n).last() == digit_char(d));
        assert(read_decimal(decimal(n)) == read_decimal(decimal(n / 10)) * 10 + d);
        assert((n / 10) * 10 + d == n);
        assert forall|i: int| 0 <= i < decimal(n).len() implies '0' <= #[trigger] decimal(n)[i] <= '9' by {
            if i < decimal(n / 10).len() {
                assert(decimal(n)[i] == decimal(n / 10)[i]);
            }
        }
        assert(decimal(n)[0] == decimal(n / 10)[0]);
    }
}

/// The text form of a boolean or an integer value determines the value:
/// reading the text back gives it.
pub proof fn law_text_form_round_trip(v: ValueView)
    ensures
        v matches ValueView::UnsignedInt(u) ==> read_decimal(text_form(v).unwrap()) == u,
        v matches ValueView::SignedInt(i) ==> read_signed_decimal(text_form(v).unwrap()) == i,
        v matches ValueView::Bool(b) ==> (text_form(v).unwrap() == seq!['1'] <==> b),
        v matches ValueView::Text(s) ==> text_form(v).unwrap() == s,
        text_form(v) is None <==> v is Real,
{
    match v {
        ValueView::UnsignedInt(u) => {
            law_decimal_round_trip(u as nat);
        },
        ValueView::SignedInt(i) => {
            if i < 0 {
                law_decimal_round_trip((-i) as nat);
                let t = signed_decimal(i as int);
                assert(t.drop_first() =~= decimal((-i) as nat));
            } else {
                law_decimal_round_trip(i as nat);
            }
        },
        ValueView::Bool(b) => {
            assert(seq!['0'][0] != seq!['1'][0]);
        },
        _ => {},
    }
}

// ---------------------------------------------------------------------------
// Filters.
// ---------------------------------------------------------------------------

/// Adding a condition to a filter keeps the conditions that were there, in
/// their order, puts the new one last, and leaves class and subclass.
pub proof fn law_filter_conditions_in_order(
    f: FilterView,
    name: Seq<char>,
    comparison: Comparison,
    value: ConditionView,
)
    ensures
        f.add(name, comparison, value).conditions.len() == f.conditions.len() + 1,
        f.add(name, comparison, value).conditions.subrange(0, f.conditions.len() as int) == f.conditions,
        f.add(name, comparison, value).conditions.last() == (name, comparison, value),
        f.add(name, comparison, value).class == f.class,
        f.add(name, comparison, value).subclass == f.subclass,
{
    assert(f.add(name, comparison, value).conditions.subrange(0, f.conditions.len() as int) =~= f.conditions);
}

/// A filter built from the empty filter by any sequence of builder calls
/// holds one condition per condition builder call, in call order, and none
/// for the class and subclass calls; its class is that of the last
/// `with_class` call, or none, and its subclass that of the last
/// `with_subclass` call, or none.
pub proof fn law_filter_built_by_calls(steps: Seq<FilterStep>)
    ensures
        built(steps).conditions == added_conditions(steps),
        built(steps).class == last_class(steps),
        built(steps).subclass == last_subclass(steps),
    decreases steps.len(),
{
    if steps.len() > 0 {
        law_filter_built_by_calls(steps.drop_last());
    }
}

// ---------------------------------------------------------------------------
// Failures.
// ---------------------------------------------------------------------------

/// Two failures are equal exactly when they are of the same kind, whatever
/// they carry; so equality of failures is reflexive, symmetric and
/// transitive.
pub proof fn law_failure_equality(a: FailedTo, b: FailedTo, c: FailedTo, x: Vec<String>, y: Vec<String>)
    ensures
        a.eq_spec(&a),
        a.eq_spec(&b) == b.eq_spec(&a),
        a.eq_spec(&b) && b.eq_spec(&c) ==> a.eq_spec(&c),
        FailedTo::ExecutePredicate(x).eq_spec(&FailedTo::ExecutePredicate(y)),
        !FailedTo::ConvertValue.eq_spec(&FailedTo::ConvertEntity),
{
}

// ---------------------------------------------------------------------------
// Equality of values and entities.
// ---------------------------------------------------------------------------

/// Real numbers compare as `f64` numbers do: +0 equals -0, and a NaN
/// equals nothing, itself included.
pub proof fn law_real_equality(bits: u64)
    ensures
        real_eq(0x8000_0000_0000_0000u64, 0u64),
        is_nan(bits) ==> !real_eq(bits, bits),
        !is_nan(bits) ==> real_eq(bits, bits),
{
    assert(!is_nan(0x8000_0000_0000_0000u64) && !is_nan(0u64)) by (bit_vector);
    assert((0x8000_0000_0000_0000u64 & 0x7fff_ffff_ffff_ffffu64) == 0 && (0u64
        & 0x7fff_ffff_ffff_ffffu64) == 0) by (bit_vector);
}

/// Two entities with the same content are equal, whatever the order in
/// which their attributes were written, unless one of the values is a NaN
/// (which equals nothing).
pub proof fn law_entity_equality_ignores_order(a: Entity, b: Entity)
    requires
        a@ == b@,
        forall|k: Seq<char>|
            #[trigger] a@.attributes.contains_key(k) ==> !(a@.attributes[k] matches ValueView::Real(
                bits,
            ) && is_nan(bits)),
    ensures
        a.eq_spec(&b),
{
    assert forall|k: Seq<char>| #[trigger] a@.attributes.contains_key(k) implies value_eq(
        a@.attributes[k],
        b@.attributes[k],
    ) by {
        match a@.attributes[k] {
            ValueView::Real(bits) => {
                law_real_equality(bits);
            },
            _ => {},
        }
    }
}


// ---------------------------------------------------------------------------
// Equality of values, conditions, entities and failures, stated over the
// payloads themselves.
// ---------------------------------------------------------------------------

/// Two bit patterns with the same sign bit and the same other bits are the
/// same bit pattern.
proof fn lemma_bits_from_sign_and_magnitude(x: u64, y: u64)
    by (bit_vector)
    requires
        (x & 0x7fff_ffff_ffff_ffffu64) == (y & 0x7fff_ffff_ffff_ffffu64),
        ((x & 0x8000_0000_0000_0000u64) == 0) == ((y & 0x8000_0000_0000_0000u64) == 0),
    ensures
        x == y,
{
}

/// Two reals are equal exactly when neither is a NaN (all exponent bits set,
/// some fraction bit set) and their bit patterns are the same, or both are
/// zeros (+0 and -0 are equal).
pub proof fn law_real_equality_by_bits(x: u64, y: u64)
    ensures
        Value::Real(x).eq_spec(&Value::Real(y)) <==> {
            &&& !((x & 0x7ff0_0000_0000_0000u64) == 0x7ff0_0000_0000_0000u64
                && (x & 0x000f_ffff_ffff_ffffu64) != 0)
            &&& !((y & 0x7ff0_0000_0000_0000u64) == 0x7ff0_0000_0000_0000u64
                && (y & 0x000f_ffff_ffff_ffffu64) != 0)
            &&& (x == y || ((x & 0x7fff_ffff_ffff_ffffu64) == 0 && (y & 0x7fff_ffff_ffff_ffffu64)
                == 0))
        },
{
    if real_key(x) == real_key(y) && x != y {
        if ((x & 0x8000_0000_0000_0000u64) == 0) == ((y & 0x8000_0000_0000_0000u64) == 0) {
            if (x & 0x7fff_ffff_ffff_ffffu64) == (y & 0x7fff_ffff_ffff_ffffu64) {
                lemma_bits_from_sign_and_magnitude(x, y);
            }
        }
    }
}

/// Two values are equal only when they are of the same kind; two booleans,
/// two signed integers, two unsigned integers or two texts are equal exactly
/// when their payloads are.
pub proof fn law_value_equality(
    a: Value,
    b: Value,
    p: bool,
    q: bool,
    i: i64,
    j: i64,
    u: u64,
    v: u64,
    s: String,
    t: String,
)
    ensures
        a is Bool && b !is Bool ==> !a.eq_spec(&b),
        a is Real && b !is Real ==> !a.eq_spec(&b),
        a is SignedInt && b !is SignedInt ==> !a.eq_spec(&b),
        a is Text && b !is Text ==> !a.eq_spec(&b),
        a is UnsignedInt && b !is UnsignedInt ==> !a.eq_spec(&b),
        Value::Bool(p).eq_spec(&Value::Bool(q)) <==> p == q,
        Value::SignedInt(i).eq_spec(&Value::SignedInt(j)) <==> i == j,
        Value::UnsignedInt(u).eq_spec(&Value::UnsignedInt(v)) <==> u == v,
        Value::Text(s).eq_spec(&Value::Text(t)) <==> s@ == t@,
{
}

/// Equality of values is symmetric.
pub proof fn law_value_equality_symmetric(a: Value, b: Value)
    ensures
        a.eq_spec(&b) == b.eq_spec(&a),
{
}

/// Two conditions are equal only when they are of the same kind; two
/// booleans, two signed integers, two unsigned integers or two texts are
/// equal exactly when their payloads are, and two reals as `f64` numbers
/// are (see [`law_real_equality_by_bits`]).
pub proof fn law_condition_equality<'a>(
    a: Condition<'a>,
    b: Condition<'a>,
    p: bool,
    q: bool,
    i: i64,
    j: i64,
    u: u64,
    v: u64,
    s: &'a str,
    t: &'a str,
)
    ensures
        a is Bool && b !is Bool ==> !a.eq_spec(&b),
        a is Real && b !is Real ==> !a.eq_spec(&b),
        a is SignedInt && b !is SignedInt ==> !a.eq_spec(&b),
        a is Text && b !is Text ==> !a.eq_spec(&b),
        a is UnsignedInt && b !is UnsignedInt ==> !a.eq_spec(&b),
        Condition::Bool(p).eq_spec(&Condition::Bool(q)) <==> p == q,
        Condition::SignedInt(i).eq_spec(&Condition::SignedInt(j)) <==> i == j,
        Condition::UnsignedInt(i).eq_spec(&Condition::UnsignedInt(j)) <==> i == j,
        Condition::Text(s).eq_spec(&Condition::Text(t)) <==> s@ == t@,
        Condition::Real(u).eq_spec(&Condition::Real(v)) <==> Value::Real(u).eq_spec(
            &Value::Real(v),
        ),
{
}

/// Two entities are equal exactly when they have the same id, state,
/// reference date, class and subclass, the same attribute ids, and equal
/// values under each id.
pub proof fn law_entity_equality_by_fields(a: Entity, b: Entity)
    ensures
        a.eq_spec(&b) <==> {
            &&& a.id@ == b.id@
            &&& a.state == b.state
            &&& a.ref_date == b.ref_date
            &&& a.class@ == b.class@
            &&& (a.subclass is None <==> b.subclass is None)
            &&& (a.subclass is Some && b.subclass is Some ==> a.subclass.unwrap()@ == b.subclass.unwrap()@)
            &&& a@.attributes.dom() == b@.attributes.dom()
            &&& forall|k: Seq<char>|
                #[trigger] a@.attributes.contains_key(k) ==> value_eq(
                    a@.attributes[k],
                    b@.attributes[k],
                )
        },
{
    match (&a.subclass, &b.subclass) {
        (Some(x), Some(y)) => {
            if x@ == y@ {
                assert(a@.subclass == b@.subclass);
            }
        },
        _ => {},
    }
}

/// Two failures are equal exactly when they are the same variant, whatever
/// they carry.
pub proof fn law_failure_equality_by_variant(a: FailedTo, b: FailedTo)
    ensures
        a.eq_spec(&b) <==> {
            ||| a is ComposeFilter && b is ComposeFilter
            ||| a is ConvertEntity && b is ConvertEntity
            ||| a is ConvertObject && b is ConvertObject
            ||| a is ConvertValue && b is ConvertValue
            ||| a is ExecutePredicate && b is ExecutePredicate
            ||| a is InitDatabase && b is InitDatabase
            ||| a is LoadFromDB && b is LoadFromDB
            ||| a is LockCatalog && b is LockCatalog
            ||| a is MapAttribute && b is MapAttribute
            ||| a is MapEntity && b is MapEntity
            ||| a is PersistCatalog && b is PersistCatalog
            ||| a is SQLite && b is SQLite
        },
{
}

} // verus!
