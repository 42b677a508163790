use ruru::binding::{int_to_num, num_to_int, num_to_long};
use ruru::value::{FIXNUM_MAX, FIXNUM_MIN};
use ruru::{try_convert, Fixnum, Integer, Object, Value, ValueType, VerifiedObject};

#[test]
fn fixnum_new_one_to_i64() {
    assert_eq!(Fixnum::new(1).to_i64(), 1);
}

#[test]
fn fixnum_new_one_to_i32() {
    assert_eq!(Fixnum::new(1).to_i32(), 1);
}

#[test]
fn integer_new_one_to_i64() {
    assert_eq!(Integer::new(1).to_i64(), 1);
}

#[test]
fn integer_new_one_to_i32() {
    assert_eq!(Integer::new(1).to_i32(), 1);
}

#[test]
fn negative_to_i32() {
    assert_eq!(Fixnum::new(-42).to_i32(), -42);
    assert_eq!(Integer::new(-42).to_i32(), -42);
}

#[test]
fn zero_to_i64() {
    assert_eq!(Fixnum::new(0).to_i64(), 0);
    assert_eq!(Integer::new(0).to_i64(), 0);
}

#[test]
fn round_trip_over_many_values() {
    let samples: Vec<i64> = vec![
        FIXNUM_MIN,
        FIXNUM_MIN + 1,
        -(1i64 << 40),
        i32::MIN as i64 - 1,
        -1,
        0,
        1,
        2,
        i32::MAX as i64 + 1,
        1i64 << 40,
        FIXNUM_MAX - 1,
        FIXNUM_MAX,
    ];
    for n in samples {
        assert_eq!(Fixnum::new(n).to_i64(), n);
        assert_eq!(Integer::new(n).to_i64(), n);
    }
}

#[test]
fn narrow_round_trip_at_bounds() {
    for n in [i32::MIN, i32::MIN + 1, -1, 0, 1, i32::MAX - 1, i32::MAX] {
        assert_eq!(Fixnum::new(n as i64).to_i32(), n);
        assert_eq!(Integer::new(n as i64).to_i32(), n);
    }
}

#[test]
fn fixnum_words() {
    assert_eq!(int_to_num(0).value, 1);
    assert_eq!(int_to_num(1).value, 3);
    assert_eq!(int_to_num(-1).value, u64::MAX);
    assert_eq!(int_to_num(-42).value, (-83i64) as u64);
    assert_eq!(int_to_num(FIXNUM_MAX).value, (1u64 << 63) - 1);
    assert_eq!(int_to_num(FIXNUM_MIN).value, (1u64 << 63) + 1);
}

#[test]
fn word_decoding() {
    assert_eq!(num_to_long(Value { value: 3 }), 1);
    assert_eq!(num_to_long(Value { value: u64::MAX }), -1);
    assert_eq!(num_to_long(Value { value: (1u64 << 63) + 1 }), FIXNUM_MIN);
    assert_eq!(num_to_int(Value { value: (-83i64) as u64 }), -42);
}

#[test]
fn new_passes_tag_check() {
    for n in [FIXNUM_MIN, -42, 0, 1, FIXNUM_MAX] {
        assert!(Fixnum::is_correct_type(&Fixnum::new(n)));
        assert!(Integer::is_correct_type(&Integer::new(n)));
        assert_eq!(Fixnum::new(n).value().ty(), ValueType::Fixnum);
    }
}

#[test]
fn tags_of_immediate_words() {
    assert_eq!(Value { value: 0x00 }.ty(), ValueType::False);
    assert_eq!(Value { value: 0x08 }.ty(), ValueType::Nil);
    assert_eq!(Value { value: 0x14 }.ty(), ValueType::True);
    assert_eq!(Value { value: 0x34 }.ty(), ValueType::Undef);
    assert_eq!(Value { value: 0x12 }.ty(), ValueType::Float);
    assert_eq!(Value { value: 0x1_0c }.ty(), ValueType::Symbol);
    assert_eq!(Value { value: 0x7f00_0010 }.ty(), ValueType::Object);
    assert_eq!(Value { value: 0x2b }.ty(), ValueType::Fixnum);
}

#[test]
fn non_integer_handles_are_rejected() {
    for bits in [0x00u64, 0x08, 0x14, 0x34, 0x12, 0x1_0c, 0x7f00_0010] {
        let h = Value { value: bits };
        assert!(!Fixnum::is_correct_type(&Fixnum::from(h)));
        assert!(!Integer::is_correct_type(&Integer::from(h)));
        assert!(!Fixnum::is_correct_type(&Integer::from(h)));
    }
}

#[test]
fn error_messages_name_the_kind() {
    assert_eq!(Fixnum::error_message(), "Error converting to Fixnum");
    assert_eq!(Integer::error_message(), "Error converting to Integer");
    assert!(Fixnum::error_message().contains("Fixnum"));
    assert!(Integer::error_message().contains("Integer"));
}

#[test]
fn conversion_of_object_word_fails_with_message() {
    let string_like = Value { value: 0x7f00_0010 };
    match try_convert::<Fixnum>(string_like) {
        Ok(_) => panic!("an object word is not a fixnum"),
        Err(e) => assert_eq!(e.message(), "Error converting to Fixnum"),
    }
    match try_convert::<Integer>(Value { value: 0x08 }) {
        Ok(_) => panic!("nil is not an integer"),
        Err(e) => assert_eq!(e.message(), "Error converting to Integer"),
    }
}

#[test]
fn conversion_of_fixnum_word_succeeds() {
    let h = Fixnum::new(-7).value();
    let f = try_convert::<Fixnum>(h).ok().unwrap();
    assert_eq!(f.value(), h);
    assert_eq!(f.to_i64(), -7);
    let i = try_convert::<Integer>(h).ok().unwrap();
    assert_eq!(i.to_i32(), -7);
}

#[test]
fn from_then_value_is_identity() {
    for bits in [0u64, 1, 8, 0x1_0c, 0x7f00_0010, u64::MAX] {
        let h = Value { value: bits };
        assert_eq!(Fixnum::from(h).value(), h);
        assert_eq!(Integer::from(h).value(), h);
    }
}

#[test]
fn equality_follows_the_integer() {
    assert_eq!(Fixnum::new(5), Fixnum::new(5));
    assert_ne!(Fixnum::new(5), Fixnum::new(6));
    assert_eq!(Integer::new(-1), Integer::new(-1));
    assert_ne!(Integer::new(-1), Integer::new(1));
    assert_ne!(Fixnum::new(FIXNUM_MIN), Fixnum::new(FIXNUM_MAX));
}

#[test]
fn from_own_handle_gives_equal_wrapper() {
    for n in [FIXNUM_MIN, -42, 0, 1, FIXNUM_MAX] {
        let f = Fixnum::new(n);
        assert_eq!(Fixnum::from(f.value()), f);
        let i = Integer::new(n);
        assert_eq!(Integer::from(i.value()), i);
    }
    let h = Value { value: 0x08 };
    assert_eq!(Fixnum::from(Fixnum::from(h).value()), Fixnum::from(h));
}
