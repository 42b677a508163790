//! `Fixnum`: a runtime integer stored immediately in its value word.
use vstd::prelude::*;
use crate::binding;
use crate::object::{contains, error_text, Object, VerifiedObject};
use crate::value::{fixnum_range, Value, ValueType};

verus! {

/// A runtime value that is an immediate integer.
///
/// Built by `new`, or by `try_convert` on a value tagged `ValueType::Fixnum`,
/// its handle carries that tag. `From<Value>` wraps any handle unchecked.
#[derive(Debug, PartialEq, Eq, Structural)]
pub struct Fixnum {
    value: Value,
}

impl Fixnum {
    /// The fixnum that holds `num`.
    ///
    /// `num` must lie in `FIXNUM_MIN..=FIXNUM_MAX`, the integers that a value
    /// word holds immediately (63 bits); the runtime keeps larger ones as heap
    /// objects, which are outside this library.
    pub fn new(num: i64) -> (r: Self)
        requires
            fixnum_range(num as int),
        ensures
            r.handle() == Value::from_integer(num as int),
            r.handle().kind() == ValueType::Fixnum,
    {
        proof {
            binding::lemma_fixnum_round_trip(num as int);
        }
        Self::from(binding::int_to_num(num))
    }

    /// The held integer as an `i32`.
    ///
    /// The integer must fit in 32 bits: the runtime refuses to narrow one that
    /// does not, so such a call is left out here.
    pub fn to_i32(&self) -> (r: i32)
        requires
            self.handle().kind() == ValueType::Fixnum,
            i32::MIN <= self.handle().to_integer() <= i32::MAX,
        ensures
            r == self.handle().to_integer(),
    {
        binding::num_to_int(self.value())
    }

    /// The held integer as an `i64`.
    pub fn to_i64(&self) -> (r: i64)
        requires
            self.handle().kind() == ValueType::Fixnum,
        ensures
            r == self.handle().to_integer(),
    {
        binding::num_to_long(self.value())
    }
}

impl From<Value> for Fixnum {
    /// Wraps `value` without checking its tag.
    fn from(value: Value) -> (r: Self)
        ensures
            r.handle() == value,
    {
        Fixnum { value }
    }
}

impl vstd::std_specs::convert::FromSpecImpl<Value> for Fixnum {
    open spec fn obeys_from_spec() -> bool {
        true
    }

    closed spec fn from_spec(v: Value) -> Self {
        Fixnum { value: v }
    }
}

impl Object for Fixnum {
    closed spec fn handle(&self) -> Value {
        self.value
    }

    fn wrap_unchecked(value: Value) -> (r: Self) {
        Self::from(value)
    }

    fn value(&self) -> (r: Value) {
        self.value
    }
}

impl VerifiedObject for Fixnum {
    open spec fn accepts(ty: ValueType) -> bool {
        ty == ValueType::Fixnum
    }

    open spec fn kind_name() -> Seq<char> {
        "Fixnum"@
    }

    fn is_correct_type<T: Object>(object: &T) -> (r: bool) {
        object.value().ty() == ValueType::Fixnum
    }

    fn error_message() -> (r: &'static str) {
        let r = "Error converting to Fixnum";
        proof {
            reveal_strlit("Error converting to Fixnum");
            reveal_strlit("Error converting to ");
            reveal_strlit("Fixnum");
            assert(r@ =~= error_text(Self::kind_name()));
        }
        r
    }
}

impl Fixnum {
    /// A fixnum built from a native integer passes the tag check.
    pub proof fn lemma_new_is_correct_type(n: int)
        requires
            fixnum_range(n),
        ensures
            Self::accepts(Value::from_integer(n).kind()),
    {
        binding::lemma_integer_round_trip(n);
    }

    /// A value with any tag but `Fixnum` fails the tag check, and the diagnostic
    /// is not empty and names the kind.
    pub proof fn lemma_rejects_other_tags(v: Value)
        requires
            v.kind() != ValueType::Fixnum,
        ensures
            !Self::accepts(v.kind()),
            error_text(Self::kind_name()).len() > 0,
            contains(error_text(Self::kind_name()), Self::kind_name()),
    {
        reveal_strlit("Error converting to ");
        reveal_strlit("Fixnum");
        let text = error_text(Self::kind_name());
        let name = Self::kind_name();
        assert(text.len() == 26);
        assert(text.subrange(20, 20 + name.len() as int) =~= name);
    }

    /// Wrapping a handle unchecked and projecting it back gives the same handle.
    pub proof fn lemma_from_value_identity(h: Value)
        ensures
            <Fixnum as vstd::std_specs::convert::FromSpec<Value>>::from_spec(h).handle() == h,
    {
    }

    /// Two fixnums that hold the same handle are equal; in particular wrapping a
    /// fixnum's own handle with `from` gives back an equal fixnum.
    pub proof fn lemma_handle_eq(a: Fixnum, b: Fixnum)
        requires
            a.handle() == b.handle(),
        ensures
            a == b,
    {
    }

    /// Two fixnums built from native integers are equal exactly when the
    /// integers are.
    pub proof fn lemma_new_eq(a: Fixnum, b: Fixnum, m: int, n: int)
        requires
            fixnum_range(m),
            fixnum_range(n),
            a.handle() == Value::from_integer(m),
            b.handle() == Value::from_integer(n),
        ensures
            (a == b) <==> (m == n),
    {
        binding::lemma_from_integer_injective(m, n);
    }
}


} // verus!
