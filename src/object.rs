//! The capabilities that every typed view of a runtime value offers.
use vstd::prelude::*;
use crate::value::{Value, ValueType};

verus! {

/// A typed view of one runtime value.
pub trait Object: Sized {
    /// The handle that this view holds.
    spec fn handle(&self) -> Value;

    /// Views `value` as `Self` without looking at its kind.
    ///
    /// The caller vouches for the kind; `try_convert` is the checked path.
    fn wrap_unchecked(value: Value) -> (r: Self)
        ensures
            r.handle() == value,
    ;

    /// The handle that this view holds, verbatim.
    fn value(&self) -> (r: Value)
        ensures
            r == self.handle(),
    ;
}

/// The diagnostic that a failed conversion to the kind `name` carries.
pub open spec fn error_text(name: Seq<char>) -> Seq<char> {
    "Error converting to "@ + name
}

/// Whether `part` occurs in `whole` as a contiguous piece.
pub open spec fn contains(whole: Seq<char>, part: Seq<char>) -> bool {
    exists|i: int| 0 <= i <= whole.len() - part.len() && #[trigger] whole.subrange(i, i + part.len()) == part
}

/// A view whose kind can be checked against the handle's type tag.
pub trait VerifiedObject: Object {
    /// The type tags that this kind accepts.
    spec fn accepts(ty: ValueType) -> bool;

    /// The name of this kind, as diagnostics spell it.
    spec fn kind_name() -> Seq<char>;

    /// Whether the handle of `object` carries a tag of this kind.
    fn is_correct_type<T: Object>(object: &T) -> (r: bool)
        ensures
            r == Self::accepts(object.handle().kind()),
    ;

    /// The diagnostic of a failed conversion to this kind.
    fn error_message() -> (r: &'static str)
        ensures
            r@ == error_text(Self::kind_name()),
    ;
}

/// Why a runtime value could not be viewed as a given kind.
pub struct ConversionError {
    message: &'static str,
}

impl ConversionError {
    /// The diagnostic text.
    pub closed spec fn text(&self) -> Seq<char> {
        self.message@
    }

    /// The diagnostic text.
    pub fn message(&self) -> (r: &'static str)
        ensures
            r@ == self.text(),
    {
        self.message
    }
}

/// Views `value` as the kind `K` when its type tag is one that `K` accepts,
/// and fails with `K`'s diagnostic otherwise.
pub fn try_convert<K: VerifiedObject>(value: Value) -> (r: Result<K, ConversionError>)
    ensures
        K::accepts(value.kind()) <==> r is Ok,
        r matches Ok(k) ==> k.handle() == value,
        r matches Err(e) ==> e.text() == error_text(K::kind_name()),
{
    let view = K::wrap_unchecked(value);
    if K::is_correct_type(&view) {
        Ok(view)
    } else {
        Err(ConversionError { message: K::error_message() })
    }
}

} // verus!
