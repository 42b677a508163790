//! Conversions between native integers and the runtime's immediate integers.
use vstd::prelude::*;
use crate::value::{fixnum_bits, fixnum_payload, fixnum_range, Value, ValueType};

verus! {

/// Decoding the word of `n` gives `n` back.
pub proof fn lemma_fixnum_round_trip(n: int)
    requires
        fixnum_range(n),
    ensures
        fixnum_payload(fixnum_bits(n)) == n,
        fixnum_bits(n) % 2 == 1,
{
}

/// Distinct integers have distinct words.
pub proof fn lemma_fixnum_bits_injective(a: int, b: int)
    requires
        fixnum_range(a),
        fixnum_range(b),
    ensures
        (fixnum_bits(a) == fixnum_bits(b)) <==> (a == b),
{
    lemma_fixnum_round_trip(a);
    lemma_fixnum_round_trip(b);
}

/// Extracting the integer from the fixnum built of `n` gives `n` back, and that
/// value is tagged as a fixnum.
pub proof fn lemma_integer_round_trip(n: int)
    requires
        fixnum_range(n),
    ensures
        Value::from_integer(n).to_integer() == n,
        Value::from_integer(n).kind() == ValueType::Fixnum,
{
    lemma_fixnum_round_trip(n);
}

/// A 32-bit integer fits a fixnum, and extracting it gives it back, still within
/// 32 bits.
pub proof fn lemma_narrow_round_trip(n: i32)
    ensures
        fixnum_range(n as int),
        Value::from_integer(n as int).to_integer() == n,
        i32::MIN <= Value::from_integer(n as int).to_integer() <= i32::MAX,
{
    lemma_integer_round_trip(n as int);
}

/// The fixnums of two integers are the same value exactly when the integers are equal.
pub proof fn lemma_from_integer_injective(a: int, b: int)
    requires
        fixnum_range(a),
        fixnum_range(b),
    ensures
        (Value::from_integer(a) == Value::from_integer(b)) <==> (a == b),
{
    lemma_fixnum_bits_injective(a, b);
}

/// The immediate integer that holds `num`.
pub fn int_to_num(num: i64) -> (r: Value)
    requires
        fixnum_range(num as int),
    ensures
        r == Value::from_integer(num as int),
{
    if num >= 0 {
        Value { value: (num as u64) * 2 + 1 }
    } else {
        let m: u64 = (-(num + 1)) as u64;
        Value { value: u64::MAX - 2 * m }
    }
}

/// The integer held by the fixnum `num`, as an `i64`.
pub fn num_to_long(num: Value) -> (r: i64)
    requires
        num.value % 2 == 1,
    ensures
        r == num.to_integer(),
        fixnum_range(r as int),
{
    let half: u64 = num.value / 2;
    if num.value < 0x8000_0000_0000_0000 {
        half as i64
    } else {
        (half as i64 - i64::MAX) - 1
    }
}

/// The integer held by the fixnum `num`, as an `i32`; the integer must fit.
pub fn num_to_int(num: Value) -> (r: i32)
    requires
        num.value % 2 == 1,
        i32::MIN <= num.to_integer() <= i32::MAX,
    ensures
        r == num.to_integer(),
{
    num_to_long(num) as i32
}

} // verus!
