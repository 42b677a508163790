//! Typed handles over the numeric values of an embedded Ruby runtime.
//!
//! A runtime value is a machine word (`Value`). Immediate integers ("fixnums")
//! are stored in that word with a tag bit; the wrappers `Fixnum` and
//! `Integer` are views of a `Value` that convert to and from native integers,
//! and `try_convert` is the checked way to view any value as one of them.
pub mod binding;
pub mod fixnum;
pub mod integer;
pub mod object;
pub mod value;

pub use fixnum::Fixnum;
pub use integer::Integer;
pub use object::{try_convert, ConversionError, Object, VerifiedObject};
pub use value::{Value, ValueType};
