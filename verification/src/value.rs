//! The value held by an attribute of an entity, its conversions from and
//! to Rust values, and its text form.
use vstd::prelude::*;
use vstd::std_specs::convert::FromSpecImpl;
use vstd::std_specs::convert::TryFromSpecImpl;

use crate::failed_to::FailedTo;

verus! {

/// The value of an entity's attribute.
///
/// A value holds one of a few data types, which makes the storage of
/// semi-structured data flexible.
#[derive(Debug)]
pub enum Value {
    /// A boolean value (`true` or `false`).
    Bool(bool),
    /// A floating-point number, held as the IEEE-754 bit pattern of an `f64`
    /// (`f64::to_bits` gives it, `f64::from_bits` reads it back).
    Real(u64),
    /// A signed 64-bit integer.
    SignedInt(i64),
    /// A UTF-8 encoded string.
    Text(String),
    /// An unsigned integer.
    UnsignedInt(u64),
}

/// The mathematical content of a [`Value`]: text is a sequence of characters.
pub enum ValueView {
    Bool(bool),
    Real(u64),
    SignedInt(i64),
    Text(Seq<char>),
    UnsignedInt(u64),
}

impl View for Value {
    type V = ValueView;

    open spec fn view(&self) -> ValueView {
        match self {
            Value::Bool(b) => ValueView::Bool(*b),
            Value::Real(bits) => ValueView::Real(*bits),
            Value::SignedInt(i) => ValueView::SignedInt(*i),
            Value::Text(s) => ValueView::Text(s@),
            Value::UnsignedInt(u) => ValueView::UnsignedInt(*u),
        }
    }
}

impl Clone for Value {
    fn clone(&self) -> (r: Self)
        ensures
            r == *self,
    {
        match self {
            Value::Bool(b) => Value::Bool(*b),
            Value::Real(bits) => Value::Real(*bits),
            Value::SignedInt(i) => Value::SignedInt(*i),
            Value::Text(s) => Value::Text(s.clone()),
            Value::UnsignedInt(u) => Value::UnsignedInt(*u),
        }
    }
}

// ---------------------------------------------------------------------------
// Conversions into a value.
// ---------------------------------------------------------------------------

impl From<&str> for Value {
    /// A string slice becomes a `Text` value with the same characters.
    fn from(value: &str) -> (r: Self)
        ensures
            r@ == ValueView::Text(value@),
    {
        Value::Text(value.to_owned())
    }
}

/// A string slice becomes the text of a string with the same characters.
/// Which `String` that is, `from_spec` cannot pin down (two strings with
/// the same characters need not be the same value here), so
/// `obeys_from_spec` is off and `from` states its result in its own
/// `ensures`, by content.
impl FromSpecImpl<&str> for Value {
    open spec fn obeys_from_spec() -> bool {
        false
    }

    open spec fn from_spec(v: &str) -> Value {
        Value::Text(choose|s: String| s@ == v@)
    }
}

impl From<String> for Value {
    fn from(value: String) -> (r: Self) {
        Value::Text(value)
    }
}

impl FromSpecImpl<String> for Value {
    open spec fn obeys_from_spec() -> bool {
        true
    }

    open spec fn from_spec(v: String) -> Value {
        Value::Text(v)
    }
}

impl From<u32> for Value {
    fn from(value: u32) -> (r: Self) {
        Value::UnsignedInt(value as u64)
    }
}

impl FromSpecImpl<u32> for Value {
    open spec fn obeys_from_spec() -> bool {
        true
    }

    open spec fn from_spec(v: u32) -> Value {
        Value::UnsignedInt(v as u64)
    }
}

impl From<u64> for Value {
    fn from(value: u64) -> (r: Self) {
        Value::UnsignedInt(value)
    }
}

impl FromSpecImpl<u64> for Value {
    open spec fn obeys_from_spec() -> bool {
        true
    }

    open spec fn from_spec(v: u64) -> Value {
        Value::UnsignedInt(v)
    }
}

impl From<i64> for Value {
    fn from(value: i64) -> (r: Self) {
        Value::SignedInt(value)
    }
}

impl FromSpecImpl<i64> for Value {
    open spec fn obeys_from_spec() -> bool {
        true
    }

    open spec fn from_spec(v: i64) -> Value {
        Value::SignedInt(v)
    }
}

impl From<i32> for Value {
    fn from(value: i32) -> (r: Self) {
        Value::SignedInt(value as i64)
    }
}

impl FromSpecImpl<i32> for Value {
    open spec fn obeys_from_spec() -> bool {
        true
    }

    open spec fn from_spec(v: i32) -> Value {
        Value::SignedInt(v as i64)
    }
}

impl From<bool> for Value {
    fn from(value: bool) -> (r: Self) {
        Value::Bool(value)
    }
}

impl FromSpecImpl<bool> for Value {
    open spec fn obeys_from_spec() -> bool {
        true
    }

    open spec fn from_spec(v: bool) -> Value {
        Value::Bool(v)
    }
}

// ---------------------------------------------------------------------------
// Conversions out of a value. A value of another kind is refused with
// `FailedTo::ConvertValue`.
// ---------------------------------------------------------------------------

impl TryFrom<Value> for String {
    type Error = FailedTo;

    fn try_from(value: Value) -> (r: Result<String, FailedTo>) {
        match value {
            Value::Text(s) => Ok(s),
            _ => Err(FailedTo::ConvertValue),
        }
    }
}

impl TryFromSpecImpl<Value> for String {
    open spec fn obeys_try_from_spec() -> bool {
        true
    }

    open spec fn try_from_spec(v: Value) -> Result<String, FailedTo> {
        match v {
            Value::Text(s) => Ok(s),
            _ => Err(FailedTo::ConvertValue),
        }
    }
}

impl TryFrom<Value> for u64 {
    type Error = FailedTo;

    fn try_from(value: Value) -> (r: Result<u64, FailedTo>) {
        match value {
            Value::UnsignedInt(u) => Ok(u),
            _ => Err(FailedTo::ConvertValue),
        }
    }
}

impl TryFromSpecImpl<Value> for u64 {
    open spec fn obeys_try_from_spec() -> bool {
        true
    }

    open spec fn try_from_spec(v: Value) -> Result<u64, FailedTo> {
        match v {
            Value::UnsignedInt(u) => Ok(u),
            _ => Err(FailedTo::ConvertValue),
        }
    }
}

impl TryFrom<Value> for u32 {
    type Error = FailedTo;

    fn try_from(value: Value) -> (r: Result<u32, FailedTo>) {
        match value {
            Value::UnsignedInt(u) => {
                if u <= u32::MAX as u64 {
                    Ok(u as u32)
                } else {
                    Err(FailedTo::ConvertValue)
                }
            },
            _ => Err(FailedTo::ConvertValue),
        }
    }
}

impl TryFromSpecImpl<Value> for u32 {
    open spec fn obeys_try_from_spec() -> bool {
        true
    }

    open spec fn try_from_spec(v: Value) -> Result<u32, FailedTo> {
        match v {
            Value::UnsignedInt(u) => if u <= u32::MAX {
                Ok(u as u32)
            } else {
                Err(FailedTo::ConvertValue)
            },
            _ => Err(FailedTo::ConvertValue),
        }
    }
}

impl TryFrom<Value> for i64 {
    type Error = FailedTo;

    fn try_from(value: Value) -> (r: Result<i64, FailedTo>) {
        match value {
            Value::SignedInt(i) => Ok(i),
            _ => Err(FailedTo::ConvertValue),
        }
    }
}

impl TryFromSpecImpl<Value> for i64 {
    open spec fn obeys_try_from_spec() -> bool {
        true
    }

    open spec fn try_from_spec(v: Value) -> Result<i64, FailedTo> {
        match v {
            Value::SignedInt(i) => Ok(i),
            _ => Err(FailedTo::ConvertValue),
        }
    }
}

impl TryFrom<Value> for i32 {
    type Error = FailedTo;

    fn try_from(value: Value) -> (r: Result<i32, FailedTo>) {
        match value {
            Value::SignedInt(i) => {
                if i32::MIN as i64 <= i && i <= i32::MAX as i64 {
                    Ok(i as i32)
                } else {
                    Err(FailedTo::ConvertValue)
                }
            },
            _ => Err(FailedTo::ConvertValue),
        }
    }
}

impl TryFromSpecImpl<Value> for i32 {
    open spec fn obeys_try_from_spec() -> bool {
        true
    }

    open spec fn try_from_spec(v: Value) -> Result<i32, FailedTo> {
        match v {
            Value::SignedInt(i) => if i32::MIN <= i <= i32::MAX {
                Ok(i as i32)
            } else {
                Err(FailedTo::ConvertValue)
            },
            _ => Err(FailedTo::ConvertValue),
        }
    }
}

impl TryFrom<Value> for bool {
    type Error = FailedTo;

    fn try_from(value: Value) -> (r: Result<bool, FailedTo>) {
        match value {
            Value::Bool(b) => Ok(b),
            _ => Err(FailedTo::ConvertValue),
        }
    }
}

impl TryFromSpecImpl<Value> for bool {
    open spec fn obeys_try_from_spec() -> bool {
        true
    }

    open spec fn try_from_spec(v: Value) -> Result<bool, FailedTo> {
        match v {
            Value::Bool(b) => Ok(b),
            _ => Err(FailedTo::ConvertValue),
        }
    }
}

// ---------------------------------------------------------------------------
// Equality and order, as the payloads' own equality and order give them: a
// real number compares as an `f64` does (a NaN equals nothing and is
// unordered, +0 equals -0), a text compares by its UTF-8 bytes, and values
// of different kinds are ordered by kind, in the order of the variants.
// ---------------------------------------------------------------------------

/// The outcome of comparing two things.
#[derive(Debug, PartialEq, Eq, Structural, Clone, Copy)]
pub enum Sign {
    Less,
    Equal,
    Greater,
}

/// The bit pattern of an `f64` is a NaN.
pub open spec fn is_nan(bits: u64) -> bool {
    (bits & 0x7ff0_0000_0000_0000u64) == 0x7ff0_0000_0000_0000u64
        && (bits & 0x000f_ffff_ffff_ffffu64) != 0
}

/// The place of an `f64` on the number line, from its bit pattern: two
/// numbers that are not NaN compare as these keys do, and +0 and -0 share
/// the key 0.
pub open spec fn real_key(bits: u64) -> int {
    let magnitude = (bits & 0x7fff_ffff_ffff_ffffu64) as int;
    if (bits & 0x8000_0000_0000_0000u64) != 0 {
        -magnitude
    } else {
        magnitude
    }
}

/// Two `f64` bit patterns stand for equal numbers.
pub open spec fn real_eq(a: u64, b: u64) -> bool {
    !is_nan(a) && !is_nan(b) && real_key(a) == real_key(b)
}

/// Whether `a` is less than, equal to or greater than `b`.
pub open spec fn sign(a: int, b: int) -> Sign {
    if a < b {
        Sign::Less
    } else if a == b {
        Sign::Equal
    } else {
        Sign::Greater
    }
}

/// The lexicographic order of two byte sequences.
pub open spec fn byte_sign(a: Seq<u8>, b: Seq<u8>) -> Sign
    decreases a.len(),
{
    if a.len() == 0 && b.len() == 0 {
        Sign::Equal
    } else if a.len() == 0 {
        Sign::Less
    } else if b.len() == 0 {
        Sign::Greater
    } else if a[0] != b[0] {
        sign(a[0] as int, b[0] as int)
    } else {
        byte_sign(a.drop_first(), b.drop_first())
    }
}

/// The order of two texts: that of their UTF-8 bytes.
pub open spec fn text_sign(a: Seq<char>, b: Seq<char>) -> Sign {
    byte_sign(vstd::utf8::encode_utf8(a), vstd::utf8::encode_utf8(b))
}

/// The order of two booleans: `false` before `true`.
pub open spec fn bool_sign(a: bool, b: bool) -> Sign {
    if a == b {
        Sign::Equal
    } else if !a {
        Sign::Less
    } else {
        Sign::Greater
    }
}

/// The order of two reals, or `None` when one of them is a NaN.
pub open spec fn real_sign(a: u64, b: u64) -> Option<Sign> {
    if is_nan(a) || is_nan(b) {
        None
    } else {
        Some(sign(real_key(a), real_key(b)))
    }
}

/// The place of a value's kind in the order of the variants.
pub open spec fn value_rank(v: ValueView) -> int {
    match v {
        ValueView::Bool(_) => 0,
        ValueView::Real(_) => 1,
        ValueView::SignedInt(_) => 2,
        ValueView::Text(_) => 3,
        ValueView::UnsignedInt(_) => 4,
    }
}

/// Two values are equal: of the same kind, with equal payloads.
pub open spec fn value_eq(a: ValueView, b: ValueView) -> bool {
    match (a, b) {
        (ValueView::Bool(x), ValueView::Bool(y)) => x == y,
        (ValueView::Real(x), ValueView::Real(y)) => real_eq(x, y),
        (ValueView::SignedInt(x), ValueView::SignedInt(y)) => x == y,
        (ValueView::Text(x), ValueView::Text(y)) => x == y,
        (ValueView::UnsignedInt(x), ValueView::UnsignedInt(y)) => x == y,
        _ => false,
    }
}

/// The order of two values: by kind first, then by payload;
/// `None` when both are reals and one of them is a NaN.
pub open spec fn value_sign(a: ValueView, b: ValueView) -> Option<Sign> {
    match (a, b) {
        (ValueView::Bool(x), ValueView::Bool(y)) => Some(bool_sign(x, y)),
        (ValueView::Real(x), ValueView::Real(y)) => real_sign(x, y),
        (ValueView::SignedInt(x), ValueView::SignedInt(y)) => Some(sign(x as int, y as int)),
        (ValueView::Text(x), ValueView::Text(y)) => Some(text_sign(x, y)),
        (ValueView::UnsignedInt(x), ValueView::UnsignedInt(y)) => Some(sign(x as int, y as int)),
        _ => Some(sign(value_rank(a), value_rank(b))),
    }
}

/// Whether the bit pattern of an `f64` is a NaN.
pub fn real_is_nan(bits: u64) -> (r: bool)
    ensures
        r == is_nan(bits),
{
    (bits & 0x7ff0_0000_0000_0000u64) == 0x7ff0_0000_0000_0000u64
        && (bits & 0x000f_ffff_ffff_ffffu64) != 0
}

/// The key of an `f64` bit pattern on the number line (see [`real_key`]).
pub fn real_key_of(bits: u64) -> (k: i64)
    ensures
        k == real_key(bits),
{
    let magnitude = bits & 0x7fff_ffff_ffff_ffffu64;
    assert(magnitude <= 0x7fff_ffff_ffff_ffffu64) by (bit_vector)
        requires
            magnitude == bits & 0x7fff_ffff_ffff_ffffu64,
    ;
    if (bits & 0x8000_0000_0000_0000u64) != 0 {
        -(magnitude as i64)
    } else {
        magnitude as i64
    }
}

/// Whether two `f64` bit patterns stand for equal numbers.
pub fn reals_equal(a: u64, b: u64) -> (r: bool)
    ensures
        r == real_eq(a, b),
{
    !real_is_nan(a) && !real_is_nan(b) && real_key_of(a) == real_key_of(b)
}

/// Whether `a` is less than, equal to or greater than `b`.
fn sign_of(a: i64, b: i64) -> (r: Sign)
    ensures
        r == sign(a as int, b as int),
{
    if a < b {
        Sign::Less
    } else if a == b {
        Sign::Equal
    } else {
        Sign::Greater
    }
}

/// The order of two unsigned integers.
fn unsigned_sign_of(a: u64, b: u64) -> (r: Sign)
    ensures
        r == sign(a as int, b as int),
{
    if a < b {
        Sign::Less
    } else if a == b {
        Sign::Equal
    } else {
        Sign::Greater
    }
}

/// The lexicographic order of two byte slices.
pub fn byte_sign_of(a: &[u8], b: &[u8]) -> (r: Sign)
    ensures
        r == byte_sign(a@, b@),
{
    let mut i: usize = 0;
    assert(a@.skip(0) =~= a@);
    assert(b@.skip(0) =~= b@);
    while i < a.len() && i < b.len()
        invariant
            i <= a@.len(),
            i <= b@.len(),
            byte_sign(a@, b@) == byte_sign(a@.skip(i as int), b@.skip(i as int)),
        decreases a@.len() - i,
    {
        assert(a@.skip(i as int)[0] == a@[i as int]);
        assert(b@.skip(i as int)[0] == b@[i as int]);
        if a[i] < b[i] {
            return Sign::Less;
        } else if a[i] > b[i] {
            return Sign::Greater;
        }
        assert(a@.skip(i as int).drop_first() =~= a@.skip(i + 1));
        assert(b@.skip(i as int).drop_first() =~= b@.skip(i + 1));
        i = i + 1;
    }
    assert(byte_sign(a@.skip(i as int), b@.skip(i as int)) == sign(
        a@.len() - i,
        b@.len() - i,
    ));
    if a.len() == b.len() {
        Sign::Equal
    } else if a.len() < b.len() {
        Sign::Less
    } else {
        Sign::Greater
    }
}

/// The order of two texts (see [`text_sign`]).
pub fn text_sign_of(a: &str, b: &str) -> (r: Sign)
    ensures
        r == text_sign(a@, b@),
{
    byte_sign_of(a.as_bytes(), b.as_bytes())
}

/// The place of a value's kind in the order of the variants.
fn rank_of(v: &Value) -> (r: i8)
    ensures
        r == value_rank(v@),
{
    match v {
        Value::Bool(_) => 0,
        Value::Real(_) => 1,
        Value::SignedInt(_) => 2,
        Value::Text(_) => 3,
        Value::UnsignedInt(_) => 4,
    }
}

/// Whether two values are equal (see [`value_eq`]).
pub fn values_equal(a: &Value, b: &Value) -> (r: bool)
    ensures
        r == value_eq(a@, b@),
{
    match (a, b) {
        (Value::Bool(x), Value::Bool(y)) => *x == *y,
        (Value::Real(x), Value::Real(y)) => reals_equal(*x, *y),
        (Value::SignedInt(x), Value::SignedInt(y)) => *x == *y,
        (Value::Text(x), Value::Text(y)) => *x == *y,
        (Value::UnsignedInt(x), Value::UnsignedInt(y)) => *x == *y,
        _ => false,
    }
}

/// The order of two values, or `None` when both are reals
/// and one of them is a NaN (see [`value_sign`]).
pub fn value_sign_of(a: &Value, b: &Value) -> (r: Option<Sign>)
    ensures
        match r {
            Some(s) => value_sign(a@, b@) == Some(s),
            None => value_sign(a@, b@) is None,
        },
{
    match (a, b) {
        (Value::Bool(x), Value::Bool(y)) => Some(
            if *x == *y {
                Sign::Equal
            } else if !*x {
                Sign::Less
            } else {
                Sign::Greater
            },
        ),
        (Value::Real(x), Value::Real(y)) => {
            if real_is_nan(*x) || real_is_nan(*y) {
                None
            } else {
                Some(sign_of(real_key_of(*x), real_key_of(*y)))
            }
        },
        (Value::SignedInt(x), Value::SignedInt(y)) => Some(sign_of(*x, *y)),
        (Value::Text(x), Value::Text(y)) => Some(text_sign_of(x.as_str(), y.as_str())),
        (Value::UnsignedInt(x), Value::UnsignedInt(y)) => Some(unsigned_sign_of(*x, *y)),
        _ => Some(sign_of(rank_of(a) as i64, rank_of(b) as i64)),
    }
}

// ---------------------------------------------------------------------------
// Text form.
// ---------------------------------------------------------------------------

/// The character of a decimal digit.
pub open spec fn digit_char(d: nat) -> char
    recommends
        d < 10,
{
    seq!['0', '1', '2', '3', '4', '5', '6', '7', '8', '9'][d as int]
}

/// The decimal representation of a natural number, without leading zeros.
pub open spec fn decimal(n: nat) -> Seq<char>
    decreases n,
{
    if n < 10 {
        seq![digit_char(n)]
    } else {
        decimal(n / 10).push(digit_char(n % 10))
    }
}

/// The decimal representation of an integer, with a leading `-` when it is
/// negative.
pub open spec fn signed_decimal(i: int) -> Seq<char> {
    if i < 0 {
        seq!['-'] + decimal((-i) as nat)
    } else {
        decimal(i as nat)
    }
}

/// The text form of a value, as it is written into a database: a boolean
/// is `1` or `0`, an integer its decimal representation and a text itself.
/// The text form of a real number is float formatting, which this function
/// leaves open (`None`).
pub open spec fn text_form(v: ValueView) -> Option<Seq<char>> {
    match v {
        ValueView::Bool(b) => Some(if b { seq!['1'] } else { seq!['0'] }),
        ValueView::Real(_) => None,
        ValueView::SignedInt(i) => Some(signed_decimal(i as int)),
        ValueView::Text(s) => Some(s),
        ValueView::UnsignedInt(u) => Some(decimal(u as nat)),
    }
}

/// The string of one decimal digit.
fn digit_str(d: u64) -> (s: &'static str)
    requires
        d < 10,
    ensures
        s@ == seq![digit_char(d as nat)],
{
    proof {
        reveal_strlit("0");
        reveal_strlit("1");
        reveal_strlit("2");
        reveal_strlit("3");
        reveal_strlit("4");
        reveal_strlit("5");
        reveal_strlit("6");
        reveal_strlit("7");
        reveal_strlit("8");
        reveal_strlit("9");
    }
    if d == 0 {
        "0"
    } else if d == 1 {
        "1"
    } else if d == 2 {
        "2"
    } else if d == 3 {
        "3"
    } else if d == 4 {
        "4"
    } else if d == 5 {
        "5"
    } else if d == 6 {
        "6"
    } else if d == 7 {
        "7"
    } else if d == 8 {
        "8"
    } else {
        "9"
    }
}

/// Appends the decimal representation of `n` to `out`.
fn append_decimal(out: &mut String, n: u64)
    ensures
        final(out)@ == old(out)@ + decimal(n as nat),
    decreases n,
{
    if n >= 10 {
        append_decimal(out, n / 10);
        let ghost mid = out@;
        out.append(digit_str(n % 10));
        proof {
            assert(decimal(n as nat) == decimal((n / 10) as nat).push(digit_char((n % 10) as nat)));
            assert(out@ =~= old(out)@ + decimal(n as nat));
        }
    } else {
        out.append(digit_str(n));
        proof {
            assert(out@ =~= old(out)@ + decimal(n as nat));
        }
    }
}

/// The decimal representation of a signed integer.
fn signed_text(i: i64) -> (s: String)
    ensures
        s@ == signed_decimal(i as int),
{
    let mut out = String::new();
    if i < 0 {
        proof {
            reveal_strlit("-");
        }
        out.append("-");
        let magnitude: u64 = if i == i64::MIN {
            9223372036854775808u64
        } else {
            (-i) as u64
        };
        append_decimal(&mut out, magnitude);
    } else {
        append_decimal(&mut out, i as u64);
    }
    proof {
        assert(out@ =~= signed_decimal(i as int));
    }
    out
}

impl Value {
    /// The text form of the value, as it is written into a database (see
    /// [`text_form`]): `1` or `0` for a boolean, the decimal representation
    /// of an integer, the text itself. A real number gets `None`: its text is
    /// float formatting, which the caller applies to `f64::from_bits` of the
    /// bit pattern.
    pub fn display_text(&self) -> (r: Option<String>)
        ensures
            r matches Some(s) ==> text_form(self@) == Some(s@),
            r is None <==> text_form(self@) is None,
    {
        match self {
            Value::Bool(b) => {
                proof {
                    reveal_strlit("1");
                    reveal_strlit("0");
                }
                if *b {
                    Some("1".to_owned())
                } else {
                    Some("0".to_owned())
                }
            },
            Value::Real(_) => None,
            Value::SignedInt(i) => Some(signed_text(*i)),
            Value::Text(s) => Some(s.clone()),
            Value::UnsignedInt(u) => {
                let mut out = String::new();
                append_decimal(&mut out, *u);
                proof {
                    assert(out@ =~= decimal(*u as nat));
                }
                Some(out)
            },
        }
    }
}

} // verus!
