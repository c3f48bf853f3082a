use wrenlet::error::Error;
use wrenlet::raw::WrenType;
use wrenlet::slots::Slots;
use wrenlet::value::{get_string_lossy, FromWren, Handle, IntoWren, Number, Value};

fn num(x: f64) -> Number {
    Number::from_bits(x.to_bits())
}

#[test]
fn ensure_slots_fills_new_slots_with_null() {
    let mut slots = Slots::new(1);
    slots.ensure_slots(2);
    slots.set_slot_bool(0, true);
    slots.ensure_slots(5);
    assert_eq!(slots.get_slot_count(), 5);
    assert_eq!(slots.get_slot_type(0), WrenType::Bool);
    for i in 2..5 {
        assert_eq!(slots.get_slot_type(i), WrenType::Null);
    }
}

#[test]
fn ensure_slots_never_shrinks_and_keeps_contents() {
    let mut slots = Slots::new(1);
    slots.ensure_slots(4);
    slots.set_slot_double(3, num(2.5));
    slots.ensure_slots(4);
    slots.ensure_slots(2);
    slots.ensure_slots(0);
    assert_eq!(slots.get_slot_count(), 4);
    assert_eq!(slots.get_slot_double(3), num(2.5));
}

#[test]
fn null_round_trip() {
    let mut slots = Slots::new(1);
    slots.ensure_slots(3);
    slots.set_slot_bool(2, true);
    ().put_value(&mut slots, 2);
    assert!(matches!(<()>::get_value(&slots, 2), Ok(())));
}

#[test]
fn bool_round_trip() {
    let mut slots = Slots::new(1);
    true.put_value(&mut slots, 3);
    assert_eq!(slots.get_slot_count(), 4);
    assert!(matches!(bool::get_value(&slots, 3), Ok(true)));
    false.put_value(&mut slots, 0);
    assert!(matches!(bool::get_value(&slots, 0), Ok(false)));
}

#[test]
fn num_round_trip() {
    let mut slots = Slots::new(1);
    num(-0.125).put_value(&mut slots, 1);
    let n = Number::get_value(&slots, 1).unwrap();
    assert_eq!(f64::from_bits(n.to_bits()), -0.125);
}

#[test]
fn string_round_trip() {
    let mut slots = Slots::new(1);
    "héllo".put_value(&mut slots, 0);
    assert_eq!(String::get_value(&slots, 0).unwrap(), "héllo");
    String::from("second").put_value(&mut slots, 2);
    assert_eq!(String::get_value(&slots, 2).unwrap(), "second");
    assert_eq!(Vec::<u8>::get_value(&slots, 0).unwrap(), "héllo".as_bytes().to_vec());
}

#[test]
fn bytes_round_trip_and_copy() {
    let mut slots = Slots::new(1);
    let mut buffer = vec![1u8, 2, 3];
    buffer.as_slice().put_value(&mut slots, 1);
    buffer[0] = 9;
    assert_eq!(Vec::<u8>::get_value(&slots, 1).unwrap(), vec![1u8, 2, 3]);
}

#[test]
fn num_slot_as_bool_is_a_mismatch() {
    let mut slots = Slots::new(1);
    num(3.0).put_value(&mut slots, 0);
    match bool::get_value(&slots, 0) {
        Err(Error::MismatchedValue(e)) => {
            assert_eq!(e.expected, vec![WrenType::Bool]);
            assert_eq!(e.found, WrenType::Num);
        }
        other => panic!("unexpected {:?}", other),
    }
    assert_eq!(slots.get_slot_type(0), WrenType::Num);
}

#[test]
fn mismatches_name_both_types() {
    let mut slots = Slots::new(1);
    true.put_value(&mut slots, 0);
    match <()>::get_value(&slots, 0) {
        Err(Error::MismatchedValue(e)) => {
            assert_eq!(e.expected, vec![WrenType::Null]);
            assert_eq!(e.found, WrenType::Bool);
        }
        other => panic!("unexpected {:?}", other),
    }
    match String::get_value(&slots, 0) {
        Err(Error::MismatchedValue(e)) => {
            assert_eq!(e.expected, vec![WrenType::String]);
            assert_eq!(e.found, WrenType::Bool);
        }
        other => panic!("unexpected {:?}", other),
    }
    match Number::get_value(&slots, 5) {
        Err(Error::MismatchedValue(e)) => {
            assert_eq!(e.expected, vec![WrenType::Num]);
            assert_eq!(e.found, WrenType::Null);
        }
        other => panic!("unexpected {:?}", other),
    }
}

#[test]
fn invalid_utf8_is_an_encoding_error() {
    let mut slots = Slots::new(1);
    let bad: &[u8] = &[0x66, 0xff, 0x6f];
    bad.put_value(&mut slots, 0);
    assert!(matches!(String::get_value(&slots, 0), Err(Error::InvalidEncoding)));
    assert_eq!(Vec::<u8>::get_value(&slots, 0).unwrap(), bad.to_vec());
}

#[test]
fn lossy_read_replaces_invalid_bytes() {
    let mut slots = Slots::new(1);
    let bad: &[u8] = &[0x66, 0xff, 0x6f];
    bad.put_value(&mut slots, 0);
    assert_eq!(get_string_lossy(&slots, 0).unwrap(), "f\u{FFFD}o");
    "ok".put_value(&mut slots, 1);
    assert_eq!(get_string_lossy(&slots, 1).unwrap(), "ok");
    assert!(matches!(get_string_lossy(&slots, 7), Err(Error::MismatchedValue(_))));
}

#[test]
fn reading_past_the_end_is_null() {
    let slots = Slots::new(1);
    assert!(matches!(Value::get_value(&slots, 4), Ok(Value::Null)));
    assert!(matches!(<()>::get_value(&slots, 4), Ok(())));
}

#[test]
fn value_reads_copy_the_slot() {
    let mut slots = Slots::new(1);
    "abc".put_value(&mut slots, 0);
    match Value::get_value(&slots, 0) {
        Ok(Value::String(bytes)) => assert_eq!(bytes, b"abc".to_vec()),
        other => panic!("unexpected {:?}", other),
    }
    let h = Handle::new(1, 77);
    h.put_value(&mut slots, 1);
    assert_eq!(slots.get_slot_type(1), WrenType::Unknown);
    assert!(matches!(Value::get_value(&slots, 1), Ok(Value::Unknown)));
    assert!(matches!(slots.staged_value(1), Value::Handle(x) if x == h));
}

#[test]
fn values_write_themselves() {
    let mut slots = Slots::new(1);
    Value::Num(num(3.0)).put_value(&mut slots, 2);
    assert_eq!(Number::get_value(&slots, 2).unwrap(), num(3.0));
    assert_eq!(slots.get_slot_type(0), WrenType::Null);
    assert_eq!(Value::Mapping.wren_type(), WrenType::Mapping);
    assert_eq!(Value::List.wren_type(), WrenType::List);
    assert_eq!(Value::Foreign.wren_type(), WrenType::Foreign);
    assert!(Value::Bool(true).fits(1));
    assert!(!Value::List.fits(1));
    assert!(!Value::Mapping.fits(1));
    assert!(!Value::Foreign.fits(1));
    assert!(!Value::Unknown.fits(1));
}

#[test]
fn ensure_slots_within_count_needs_no_bound() {
    let mut slots = Slots::new(1);
    slots.ensure_slots(3);
    slots.set_slot_bool(1, true);
    slots.ensure_slots(2);
    slots.ensure_slots(3);
    assert_eq!(slots.get_slot_count(), 3);
    assert!(matches!(bool::get_value(&slots, 1), Ok(true)));
}
