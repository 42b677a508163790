//! The runtime's value word and its type tag.
use vstd::prelude::*;

verus! {

/// Smallest integer that the runtime stores immediately in a value word.
pub const FIXNUM_MIN: i64 = -0x4000_0000_0000_0000;

/// Largest integer that the runtime stores immediately in a value word.
pub const FIXNUM_MAX: i64 = 0x3fff_ffff_ffff_ffff;

/// 2^64, the number of distinct value words.
pub open spec fn word_modulus() -> int {
    0x1_0000_0000_0000_0000
}

/// Whether `n` can be held by an immediate integer.
pub open spec fn fixnum_range(n: int) -> bool {
    FIXNUM_MIN <= n <= FIXNUM_MAX
}

/// The word of the immediate integer `n`: `2n + 1` as a 64-bit two's-complement word.
pub open spec fn fixnum_bits(n: int) -> u64 {
    if n >= 0 {
        (2 * n + 1) as u64
    } else {
        (2 * n + 1 + word_modulus()) as u64
    }
}

/// The integer held in a fixnum word: the word read as a signed 64-bit number,
/// shifted right by one bit (rounding towards negative infinity).
pub open spec fn fixnum_payload(bits: u64) -> int {
    if bits < 0x8000_0000_0000_0000 {
        bits as int / 2
    } else {
        (bits as int - word_modulus()) / 2
    }
}

/// The kind of runtime value that a word stands for.
///
/// Only immediate values carry their kind in the word itself. A word that
/// refers to an object allocated by the runtime is `Object`: the precise kind
/// of such an object (a string, an array, a big integer) is kept in the
/// object's header, which this library never reads.
#[derive(Clone, Copy, Debug, PartialEq, Eq, Structural)]
pub enum ValueType {
    Fixnum,
    Float,
    Symbol,
    Nil,
    True,
    False,
    Undef,
    Object,
}

/// Word of `false`.
pub const QFALSE: u64 = 0x00;

/// Word of `nil`.
pub const QNIL: u64 = 0x08;

/// Word of `true`.
pub const QTRUE: u64 = 0x14;

/// Word of the runtime's "no value" marker.
pub const QUNDEF: u64 = 0x34;

/// The kind that the tag bits of `bits` give.
pub open spec fn kind_of(bits: u64) -> ValueType {
    if bits % 2 == 1 {
        ValueType::Fixnum
    } else if bits == QFALSE {
        ValueType::False
    } else if bits == QNIL {
        ValueType::Nil
    } else if bits == QTRUE {
        ValueType::True
    } else if bits == QUNDEF {
        ValueType::Undef
    } else if bits % 4 == 2 {
        ValueType::Float
    } else if bits % 256 == 0x0c {
        ValueType::Symbol
    } else {
        ValueType::Object
    }
}

/// A value owned by the runtime, as the word that identifies it.
///
/// The handle is copied verbatim; it is never re-encoded.
#[derive(Clone, Copy, Debug, PartialEq, Eq, Structural)]
pub struct Value {
    pub value: u64,
}

impl Value {
    /// The value of the immediate integer `n`.
    pub open spec fn from_integer(n: int) -> Value {
        Value { value: fixnum_bits(n) }
    }

    /// The integer that a fixnum value holds.
    pub open spec fn to_integer(self) -> int {
        fixnum_payload(self.value)
    }

    /// The kind of this value.
    pub open spec fn kind(self) -> ValueType {
        kind_of(self.value)
    }

    /// The type tag of this value, read from the word alone.
    pub fn ty(&self) -> (r: ValueType)
        ensures
            r == self.kind(),
    {
        let bits: u64 = self.value;
        if bits % 2 == 1 {
            ValueType::Fixnum
        } else if bits == QFALSE {
            ValueType::False
        } else if bits == QNIL {
            ValueType::Nil
        } else if bits == QTRUE {
            ValueType::True
        } else if bits == QUNDEF {
            ValueType::Undef
        } else if bits % 4 == 2 {
            ValueType::Float
        } else if bits % 256 == 0x0c {
            ValueType::Symbol
        } else {
            ValueType::Object
        }
    }
}

} // verus!
