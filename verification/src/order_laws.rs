//! Properties of the order of values and conditions (`partial_cmp`, `<`),
//! stated over the payloads themselves.
use core::cmp::Ordering;
use vstd::prelude::*;
use vstd::std_specs::cmp::PartialEqSpec;
use vstd::std_specs::cmp::PartialOrdSpec;

use crate::condition::Condition;
use crate::value::{byte_sign, Sign, Value};

verus! {

// ---------------------------------------------------------------------------
// The lexicographic order of byte sequences.
// ---------------------------------------------------------------------------

/// Two byte sequences compare equal exactly when they are the same.
proof fn lemma_byte_sign_equal(a: Seq<u8>, b: Seq<u8>)
    ensures
        byte_sign(a, b) == Sign::Equal <==> a == b,
    decreases a.len(),
{
    if a.len() == 0 && b.len() == 0 {
        assert(a =~= b);
    } else if a.len() == 0 || b.len() == 0 {
    } else if a[0] != b[0] {
    } else {
        lemma_byte_sign_equal(a.drop_first(), b.drop_first());
        if a.drop_first() == b.drop_first() {
            assert forall|i: int| 0 <= i < a.len() implies a[i] == b[i] by {
                if i > 0 {
                    assert(a[i] == a.drop_first()[i - 1]);
                    assert(b[i] == b.drop_first()[i - 1]);
                }
            }
            assert(a =~= b);
        }
    }
}

/// Swapping two byte sequences swaps less and greater.
proof fn lemma_byte_sign_swap(a: Seq<u8>, b: Seq<u8>)
    ensures
        byte_sign(a, b) == Sign::Less <==> byte_sign(b, a) == Sign::Greater,
        byte_sign(a, b) == Sign::Greater <==> byte_sign(b, a) == Sign::Less,
        byte_sign(a, b) == Sign::Equal <==> byte_sign(b, a) == Sign::Equal,
    decreases a.len(),
{
    if a.len() > 0 && b.len() > 0 && a[0] == b[0] {
        lemma_byte_sign_swap(a.drop_first(), b.drop_first());
    }
}

/// A proper prefix comes first.
proof fn lemma_byte_sign_prefix(a: Seq<u8>, b: Seq<u8>)
    requires
        a.len() < b.len(),
        a == b.subrange(0, a.len() as int),
    ensures
        byte_sign(a, b) == Sign::Less,
    decreases a.len(),
{
    if a.len() > 0 {
        assert(a[0] == b.subrange(0, a.len() as int)[0]);
        assert(a.drop_first() =~= b.drop_first().subrange(0, a.drop_first().len() as int));
        lemma_byte_sign_prefix(a.drop_first(), b.drop_first());
    }
}

/// At the first byte where two sequences differ, the smaller byte comes first.
proof fn lemma_byte_sign_first_difference(a: Seq<u8>, b: Seq<u8>, i: int)
    requires
        0 <= i < a.len(),
        i < b.len(),
        a.subrange(0, i) == b.subrange(0, i),
        a[i] < b[i],
    ensures
        byte_sign(a, b) == Sign::Less,
    decreases i,
{
    if i > 0 {
        assert(a[0] == a.subrange(0, i)[0]);
        assert(b[0] == b.subrange(0, i)[0]);
        assert(a.drop_first().subrange(0, i - 1) =~= a.subrange(0, i).drop_first());
        assert(b.drop_first().subrange(0, i - 1) =~= b.subrange(0, i).drop_first());
        assert(a.drop_first()[i - 1] == a[i]);
        assert(b.drop_first()[i - 1] == b[i]);
        lemma_byte_sign_first_difference(a.drop_first(), b.drop_first(), i - 1);
    }
}

/// The lexicographic order of byte sequences is transitive.
proof fn lemma_byte_sign_transitive(a: Seq<u8>, b: Seq<u8>, c: Seq<u8>)
    requires
        byte_sign(a, b) == Sign::Less,
        byte_sign(b, c) == Sign::Less,
    ensures
        byte_sign(a, c) == Sign::Less,
    decreases a.len(),
{
    if a.len() > 0 && b.len() > 0 && c.len() > 0 && a[0] == b[0] && b[0] == c[0] {
        lemma_byte_sign_transitive(a.drop_first(), b.drop_first(), c.drop_first());
    }
}

/// Texts with the same UTF-8 encoding are the same text.
proof fn lemma_utf8_injective(x: Seq<char>, y: Seq<char>)
    ensures
        vstd::utf8::encode_utf8(x) == vstd::utf8::encode_utf8(y) <==> x == y,
{
    vstd::utf8::encode_utf8_decode_utf8(x);
    vstd::utf8::encode_utf8_decode_utf8(y);
}

// ---------------------------------------------------------------------------
// Bits of an `f64`.
// ---------------------------------------------------------------------------

/// With the same sign bit, two bit patterns compare as the rest of their bits
/// do.
proof fn lemma_same_sign_bits(x: u64, y: u64)
    by (bit_vector)
    requires
        ((x & 0x8000_0000_0000_0000u64) == 0) == ((y & 0x8000_0000_0000_0000u64) == 0),
    ensures
        x < y <==> (x & 0x7fff_ffff_ffff_ffffu64) < (y & 0x7fff_ffff_ffff_ffffu64),
        x == y <==> (x & 0x7fff_ffff_ffff_ffffu64) == (y & 0x7fff_ffff_ffff_ffffu64),
{
}

// ---------------------------------------------------------------------------
// Values.
// ---------------------------------------------------------------------------

/// Booleans, signed integers and unsigned integers are ordered as their
/// payloads are, `false` before `true`.
pub proof fn law_value_order_of_numbers(p: bool, q: bool, i: i64, j: i64, u: u64, v: u64)
    ensures
        !p && q ==> Value::Bool(p).partial_cmp_spec(&Value::Bool(q)) == Some(Ordering::Less),
        p == q ==> Value::Bool(p).partial_cmp_spec(&Value::Bool(q)) == Some(Ordering::Equal),
        p && !q ==> Value::Bool(p).partial_cmp_spec(&Value::Bool(q)) == Some(Ordering::Greater),
        i < j ==> Value::SignedInt(i).partial_cmp_spec(&Value::SignedInt(j)) == Some(
            Ordering::Less,
        ),
        i == j ==> Value::SignedInt(i).partial_cmp_spec(&Value::SignedInt(j)) == Some(
            Ordering::Equal,
        ),
        i > j ==> Value::SignedInt(i).partial_cmp_spec(&Value::SignedInt(j)) == Some(
            Ordering::Greater,
        ),
        u < v ==> Value::UnsignedInt(u).partial_cmp_spec(&Value::UnsignedInt(v)) == Some(
            Ordering::Less,
        ),
        u == v ==> Value::UnsignedInt(u).partial_cmp_spec(&Value::UnsignedInt(v)) == Some(
            Ordering::Equal,
        ),
        u > v ==> Value::UnsignedInt(u).partial_cmp_spec(&Value::UnsignedInt(v)) == Some(
            Ordering::Greater,
        ),
{
}

/// Values of different kinds are ordered by kind, in the order of the
/// variants: booleans, reals, signed integers, texts, unsigned integers.
pub proof fn law_value_order_of_kinds(a: Value, b: Value)
    ensures
        a is Bool && b !is Bool ==> a.partial_cmp_spec(&b) == Some(Ordering::Less),
        a is Real && (b is SignedInt || b is Text || b is UnsignedInt) ==> a.partial_cmp_spec(&b)
            == Some(Ordering::Less),
        a is SignedInt && (b is Text || b is UnsignedInt) ==> a.partial_cmp_spec(&b) == Some(
            Ordering::Less,
        ),
        a is Text && b is UnsignedInt ==> a.partial_cmp_spec(&b) == Some(Ordering::Less),
        a !is Bool && b is Bool ==> a.partial_cmp_spec(&b) == Some(Ordering::Greater),
        a is UnsignedInt && b !is UnsignedInt ==> a.partial_cmp_spec(&b) == Some(
            Ordering::Greater,
        ),
{
}

/// Reals are ordered as `f64` numbers are: a NaN (all exponent bits set,
/// some fraction bit set) is unordered; two positive numbers compare as their
/// bit patterns do, two negative numbers the other way round; a negative
/// number comes before a positive one, and -0 equals +0.
pub proof fn law_value_order_of_reals(x: u64, y: u64)
    ensures
        ((x & 0x7ff0_0000_0000_0000u64) == 0x7ff0_0000_0000_0000u64 && (x
            & 0x000f_ffff_ffff_ffffu64) != 0) || ((y & 0x7ff0_0000_0000_0000u64)
            == 0x7ff0_0000_0000_0000u64 && (y & 0x000f_ffff_ffff_ffffu64) != 0)
            ==> Value::Real(x).partial_cmp_spec(&Value::Real(y)) is None,
        ({
            let nan_x = (x & 0x7ff0_0000_0000_0000u64) == 0x7ff0_0000_0000_0000u64 && (x
                & 0x000f_ffff_ffff_ffffu64) != 0;
            let nan_y = (y & 0x7ff0_0000_0000_0000u64) == 0x7ff0_0000_0000_0000u64 && (y
                & 0x000f_ffff_ffff_ffffu64) != 0;
            let neg_x = (x & 0x8000_0000_0000_0000u64) != 0;
            let neg_y = (y & 0x8000_0000_0000_0000u64) != 0;
            let zeros = (x & 0x7fff_ffff_ffff_ffffu64) == 0 && (y & 0x7fff_ffff_ffff_ffffu64) == 0;
            let r = Value::Real(x).partial_cmp_spec(&Value::Real(y));
            !nan_x && !nan_y ==> {
                &&& !neg_x && !neg_y ==> (x < y ==> r == Some(Ordering::Less)) && (x == y ==> r
                    == Some(Ordering::Equal)) && (x > y ==> r == Some(Ordering::Greater))
                &&& neg_x && neg_y ==> (x > y ==> r == Some(Ordering::Less)) && (x == y ==> r
                    == Some(Ordering::Equal)) && (x < y ==> r == Some(Ordering::Greater))
                &&& neg_x && !neg_y ==> (zeros ==> r == Some(Ordering::Equal)) && (!zeros ==> r
                    == Some(Ordering::Less))
                &&& !neg_x && neg_y ==> (zeros ==> r == Some(Ordering::Equal)) && (!zeros ==> r
                    == Some(Ordering::Greater))
            }
        }),
{
    if ((x & 0x8000_0000_0000_0000u64) == 0) == ((y & 0x8000_0000_0000_0000u64) == 0) {
        lemma_same_sign_bits(x, y);
    }
}

/// Texts are ordered by their UTF-8 bytes, lexicographically: a text whose
/// bytes are a proper prefix of another's comes first; otherwise the first
/// byte where they differ decides; and two texts compare equal exactly when
/// they are the same.
pub proof fn law_value_order_of_texts(s: String, t: String, i: int)
    ensures
        Value::Text(s).partial_cmp_spec(&Value::Text(t)) == Some(Ordering::Equal) <==> s@ == t@,
        ({
            let x = vstd::utf8::encode_utf8(s@);
            let y = vstd::utf8::encode_utf8(t@);
            let r = Value::Text(s).partial_cmp_spec(&Value::Text(t));
            &&& x.len() < y.len() && x.is_prefix_of(y) ==> r == Some(Ordering::Less)
            &&& 0 <= i < x.len() && i < y.len() && x.take(i) == y.take(i) && x[i] < y[i] ==> r
                == Some(Ordering::Less)
        }),
{
    let x = vstd::utf8::encode_utf8(s@);
    let y = vstd::utf8::encode_utf8(t@);
    lemma_byte_sign_equal(x, y);
    lemma_utf8_injective(s@, t@);
    if x.len() < y.len() && x.is_prefix_of(y) {
        lemma_byte_sign_prefix(x, y);
    }
    if 0 <= i < x.len() && i < y.len() && x.take(i) == y.take(i) && x[i] < y[i] {
        lemma_byte_sign_first_difference(x, y, i);
    }
}

/// Swapping the two sides of a comparison of values swaps less and greater,
/// and keeps equal and unordered.
pub proof fn law_value_order_swap(a: Value, b: Value)
    ensures
        a.partial_cmp_spec(&b) == Some(Ordering::Less) <==> b.partial_cmp_spec(&a) == Some(
            Ordering::Greater,
        ),
        a.partial_cmp_spec(&b) == Some(Ordering::Equal) <==> b.partial_cmp_spec(&a) == Some(
            Ordering::Equal,
        ),
        a.partial_cmp_spec(&b) is None <==> b.partial_cmp_spec(&a) is None,
{
    match (a, b) {
        (Value::Text(x), Value::Text(y)) => {
            lemma_byte_sign_swap(vstd::utf8::encode_utf8(x@), vstd::utf8::encode_utf8(y@));
        },
        _ => {},
    }
}

/// Two values compare equal exactly when they are equal.
pub proof fn law_value_order_agrees_with_equality(a: Value, b: Value)
    ensures
        a.partial_cmp_spec(&b) == Some(Ordering::Equal) <==> a.eq_spec(&b),
{
    match (a, b) {
        (Value::Text(x), Value::Text(y)) => {
            lemma_byte_sign_equal(vstd::utf8::encode_utf8(x@), vstd::utf8::encode_utf8(y@));
            lemma_utf8_injective(x@, y@);
        },
        _ => {},
    }
}

// ---------------------------------------------------------------------------
// Conditions.
// ---------------------------------------------------------------------------

/// Booleans and integers of conditions are ordered as their payloads are,
/// `false` before `true`; reals as the reals of values are (see
/// [`law_value_order_of_reals`]).
pub proof fn law_condition_order_of_payloads(p: bool, q: bool, i: i64, j: i64, x: u64, y: u64)
    ensures
        !p && q ==> Condition::Bool(p).partial_cmp_spec(&Condition::Bool(q)) == Some(
            Ordering::Less,
        ),
        p == q ==> Condition::Bool(p).partial_cmp_spec(&Condition::Bool(q)) == Some(
            Ordering::Equal,
        ),
        p && !q ==> Condition::Bool(p).partial_cmp_spec(&Condition::Bool(q)) == Some(
            Ordering::Greater,
        ),
        i < j ==> Condition::SignedInt(i).partial_cmp_spec(&Condition::SignedInt(j)) == Some(
            Ordering::Less,
        ),
        i == j ==> Condition::SignedInt(i).partial_cmp_spec(&Condition::SignedInt(j)) == Some(
            Ordering::Equal,
        ),
        i > j ==> Condition::SignedInt(i).partial_cmp_spec(&Condition::SignedInt(j)) == Some(
            Ordering::Greater,
        ),
        i < j ==> Condition::UnsignedInt(i).partial_cmp_spec(&Condition::UnsignedInt(j)) == Some(
            Ordering::Less,
        ),
        i == j ==> Condition::UnsignedInt(i).partial_cmp_spec(&Condition::UnsignedInt(j)) == Some(
            Ordering::Equal,
        ),
        i > j ==> Condition::UnsignedInt(i).partial_cmp_spec(&Condition::UnsignedInt(j)) == Some(
            Ordering::Greater,
        ),
        Condition::Real(x).partial_cmp_spec(&Condition::Real(y)) == Value::Real(x).partial_cmp_spec(
            &Value::Real(y),
        ),
{
}

/// Conditions of different kinds are ordered by kind, in the order of the
/// variants: booleans, reals, signed integers, texts, unsigned integers.
pub proof fn law_condition_order_of_kinds<'a>(a: Condition<'a>, b: Condition<'a>)
    ensures
        a is Bool && b !is Bool ==> a.partial_cmp_spec(&b) == Some(Ordering::Less),
        a is Real && (b is SignedInt || b is Text || b is UnsignedInt) ==> a.partial_cmp_spec(&b)
            == Some(Ordering::Less),
        a is SignedInt && (b is Text || b is UnsignedInt) ==> a.partial_cmp_spec(&b) == Some(
            Ordering::Less,
        ),
        a is Text && b is UnsignedInt ==> a.partial_cmp_spec(&b) == Some(Ordering::Less),
        a !is Bool && b is Bool ==> a.partial_cmp_spec(&b) == Some(Ordering::Greater),
        a is UnsignedInt && b !is UnsignedInt ==> a.partial_cmp_spec(&b) == Some(
            Ordering::Greater,
        ),
{
}

/// Texts of conditions are ordered as texts of values are: by their UTF-8
/// bytes.
pub proof fn law_condition_order_of_texts<'a>(s: &'a str, t: &'a str, u: String, v: String)
    requires
        u@ == s@,
        v@ == t@,
    ensures
        Condition::Text(s).partial_cmp_spec(&Condition::Text(t)) == Value::Text(u).partial_cmp_spec(
            &Value::Text(v),
        ),
{
}

/// Swapping the two sides of a comparison of conditions swaps less and
/// greater, and keeps equal and unordered.
pub proof fn law_condition_order_swap<'a>(a: Condition<'a>, b: Condition<'a>)
    ensures
        a.partial_cmp_spec(&b) == Some(Ordering::Less) <==> b.partial_cmp_spec(&a) == Some(
            Ordering::Greater,
        ),
        a.partial_cmp_spec(&b) == Some(Ordering::Equal) <==> b.partial_cmp_spec(&a) == Some(
            Ordering::Equal,
        ),
        a.partial_cmp_spec(&b) is None <==> b.partial_cmp_spec(&a) is None,
{
    match (a, b) {
        (Condition::Text(x), Condition::Text(y)) => {
            lemma_byte_sign_swap(vstd::utf8::encode_utf8(x@), vstd::utf8::encode_utf8(y@));
        },
        _ => {},
    }
}

/// Two conditions compare equal exactly when they are equal.
pub proof fn law_condition_order_agrees_with_equality<'a>(a: Condition<'a>, b: Condition<'a>)
    ensures
        a.partial_cmp_spec(&b) == Some(Ordering::Equal) <==> a.eq_spec(&b),
{
    match (a, b) {
        (Condition::Text(x), Condition::Text(y)) => {
            lemma_byte_sign_equal(vstd::utf8::encode_utf8(x@), vstd::utf8::encode_utf8(y@));
            lemma_utf8_injective(x@, y@);
        },
        _ => {},
    }
}

// ---------------------------------------------------------------------------
// Transitivity.
// ---------------------------------------------------------------------------

/// If a value comes before a second, and the second before a third, the
/// first comes before the third.
pub proof fn law_value_order_transitive(a: Value, b: Value, c: Value)
    ensures
        a.partial_cmp_spec(&b) == Some(Ordering::Less) && b.partial_cmp_spec(&c) == Some(
            Ordering::Less,
        ) ==> a.partial_cmp_spec(&c) == Some(Ordering::Less),
{
    match (a, b, c) {
        (Value::Text(x), Value::Text(y), Value::Text(z)) => {
            let (ex, ey, ez) = (
                vstd::utf8::encode_utf8(x@),
                vstd::utf8::encode_utf8(y@),
                vstd::utf8::encode_utf8(z@),
            );
            if byte_sign(ex, ey) == Sign::Less && byte_sign(ey, ez) == Sign::Less {
                lemma_byte_sign_transitive(ex, ey, ez);
            }
        },
        _ => {},
    }
}

/// If a condition comes before a second, and the second before a third, the
/// first comes before the third.
pub proof fn law_condition_order_transitive<'a>(a: Condition<'a>, b: Condition<'a>, c: Condition<'a>)
    ensures
        a.partial_cmp_spec(&b) == Some(Ordering::Less) && b.partial_cmp_spec(&c) == Some(
            Ordering::Less,
        ) ==> a.partial_cmp_spec(&c) == Some(Ordering::Less),
{
    match (a, b, c) {
        (Condition::Text(x), Condition::Text(y), Condition::Text(z)) => {
            let (ex, ey, ez) = (
                vstd::utf8::encode_utf8(x@),
                vstd::utf8::encode_utf8(y@),
                vstd::utf8::encode_utf8(z@),
            );
            if byte_sign(ex, ey) == Sign::Less && byte_sign(ey, ez) == Sign::Less {
                lemma_byte_sign_transitive(ex, ey, ez);
            }
        },
        _ => {},
    }
}

/// Equality of values is transitive.
pub proof fn law_value_equality_transitive(a: Value, b: Value, c: Value)
    ensures
        a.eq_spec(&b) && b.eq_spec(&c) ==> a.eq_spec(&c),
{
}

} // verus!
