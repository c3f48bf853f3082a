use std::alloc::Layout;

use wrenlet::call::{finish_call, prepare_call, CallHandle, ContractViolation};
use wrenlet::error::Error;
use wrenlet::header::{ErrorKind, Release, WrenHeader};
use wrenlet::raw::{InterpretError, WrenType};
use wrenlet::slots::Slots;
use wrenlet::value::{FromWren, Handle, IntoWren, Number, Value, WrenArguments};

fn header() -> WrenHeader {
    WrenHeader::new(Layout::new::<[u64; 4]>())
}

fn num(x: f64) -> Number {
    Number::from_bits(x.to_bits())
}

#[test]
fn new_header_is_held_once() {
    let h = header();
    assert_eq!(h.ref_count(), 1);
    assert_eq!(*h.inner_layout(), Layout::new::<[u64; 4]>());
    assert_eq!(h.foreign_classes().len(), 0);
}

#[test]
fn teardown_happens_once_when_count_reaches_zero() {
    let mut h = header();
    h.claim();
    h.claim();
    assert_eq!(h.ref_count(), 3);
    assert_eq!(h.release(), Release::Retained);
    h.claim();
    assert_eq!(h.release(), Release::Retained);
    assert_eq!(h.release(), Release::Retained);
    assert_eq!(h.ref_count(), 1);
    assert_eq!(h.release(), Release::TearDown);
    assert_eq!(h.ref_count(), 0);
}

#[test]
fn compile_error_is_reported_with_module() {
    let mut h = header();
    h.record_error(ErrorKind::Compile, "main", 1, "Expect variable name.");
    match h.finish_run(Err(InterpretError::Compile)) {
        Err(Error::Compile { module, line, message }) => {
            assert_eq!(module, "main");
            assert_eq!(line, 1);
            assert!(!message.is_empty());
        }
        other => panic!("unexpected {:?}", other),
    }
    assert!(h.take_error().is_none());
}

#[test]
fn later_error_replaces_pending_one() {
    let mut h = header();
    h.record_error(ErrorKind::Compile, "main", 1, "first");
    h.record_error(ErrorKind::Compile, "main", 2, "second");
    match h.take_error() {
        Some(Error::Compile { line, message, .. }) => {
            assert_eq!(line, 2);
            assert_eq!(message, "second");
        }
        other => panic!("unexpected {:?}", other),
    }
}

#[test]
fn runtime_error_collects_stack_frames_in_order() {
    let mut h = header();
    assert!(!h.accepts(ErrorKind::StackTrace));
    h.record_error(ErrorKind::Runtime, "", -1, "Null does not implement 'foo'.");
    assert!(h.accepts(ErrorKind::StackTrace));
    h.record_error(ErrorKind::StackTrace, "main", 3, "inner");
    h.record_error(ErrorKind::StackTrace, "main", 7, "(script)");
    match h.finish_run(Err(InterpretError::Runtime)) {
        Err(Error::Runtime { message, stack_trace }) => {
            assert_eq!(message, "Null does not implement 'foo'.");
            assert_eq!(stack_trace.len(), 2);
            assert_eq!(stack_trace[0].method, "inner");
            assert_eq!(stack_trace[0].line, 3);
            assert_eq!(stack_trace[1].method, "(script)");
            assert_eq!(stack_trace[1].module, "main");
        }
        other => panic!("unexpected {:?}", other),
    }
    assert!(!h.accepts(ErrorKind::StackTrace));
}

#[test]
fn failure_without_report_gives_empty_error() {
    let mut h = header();
    assert!(matches!(
        h.finish_run(Err(InterpretError::Runtime)),
        Err(Error::Runtime { ref message, ref stack_trace }) if message.is_empty() && stack_trace.is_empty()
    ));
    assert!(matches!(h.finish_run(Err(InterpretError::Compile)), Err(Error::Compile { .. })));
}

#[test]
fn successful_run_leaves_pending_error() {
    let mut h = header();
    assert!(h.finish_run(Ok(())).is_ok());
    h.record_error(ErrorKind::Runtime, "", 0, "boom");
    assert!(h.finish_run(Ok(())).is_ok());
    assert!(h.take_error().is_some());
}

#[test]
fn interpreted_variable_reads_as_number() {
    let mut h = header();
    assert!(h.finish_run(Ok(())).is_ok());
    let mut slots = Slots::new(9);
    slots.ensure_slots(1);
    slots.set_slot_double(0, num(3.0));
    let a = Number::get_value(&slots, 0).unwrap();
    assert_eq!(f64::from_bits(a.to_bits()), 3.0);
}

#[test]
fn call_with_handle_of_other_vm_is_rejected() {
    let mut slots = Slots::new(1);
    slots.ensure_slots(2);
    slots.set_slot_bool(1, true);
    let handle = CallHandle::new(2, 100);
    let r = prepare_call(&mut slots, &handle, &(), &(num(1.0),));
    assert_eq!(r, Err(ContractViolation));
    assert_eq!(slots.get_slot_count(), 2);
    assert_eq!(slots.get_slot_type(0), WrenType::Null);
    assert_eq!(slots.get_slot_type(1), WrenType::Bool);
}

#[test]
fn static_call_on_class_handle_returns_null() {
    let vm = 0x1000;
    let mut h = header();
    h.claim();
    let fly_to = CallHandle::new(vm, 0x2000);
    let class = Handle::new(vm, 0x3000);
    let mut slots = Slots::new(vm);
    assert_eq!(prepare_call(&mut slots, &fly_to, &class, &("Paris",)), Ok(()));
    assert_eq!(slots.get_slot_count(), 2);
    assert!(matches!(Value::get_value(&slots, 0), Ok(Value::Unknown)));
    assert!(matches!(slots.staged_value(0), Value::Handle(x) if x == class));
    assert_eq!(String::get_value(&slots, 1).unwrap(), "Paris");

    let mut result = Slots::new(vm);
    result.ensure_slots(1);
    let r: Result<(), Error> = finish_call(&mut h, Ok(()), &result);
    assert!(r.is_ok());
    assert!(h.take_error().is_none());
}

#[test]
fn call_result_is_decoded_from_slot_zero() {
    let mut h = header();
    let mut result = Slots::new(5);
    true.put_value(&mut result, 0);
    let r: Result<bool, Error> = finish_call(&mut h, Ok(()), &result);
    assert!(matches!(r, Ok(true)));
    let r: Result<Number, Error> = finish_call(&mut h, Ok(()), &result);
    assert!(matches!(r, Err(Error::MismatchedValue(_))));
}

#[test]
fn failed_call_drains_runtime_error() {
    let mut h = header();
    let result = Slots::new(5);
    h.record_error(ErrorKind::Runtime, "", 0, "Bad call.");
    h.record_error(ErrorKind::StackTrace, "main", 4, "Bird.flyTo(_)");
    let r: Result<Value, Error> = finish_call(&mut h, Err(InterpretError::Runtime), &result);
    match r {
        Err(Error::Runtime { message, stack_trace }) => {
            assert_eq!(message, "Bad call.");
            assert_eq!(stack_trace.len(), 1);
            assert_eq!(stack_trace[0].line, 4);
        }
        other => panic!("unexpected {:?}", other),
    }
    assert!(h.take_error().is_none());
}

#[test]
fn arguments_fill_consecutive_slots() {
    let mut slots = Slots::new(3);
    let handle = CallHandle::new(3, 1);
    let args = (true, num(2.0), "three", (), false, num(6.0), "seven", true);
    assert_eq!(prepare_call(&mut slots, &handle, &num(0.5), &args), Ok(()));
    assert_eq!(slots.get_slot_count(), 9);
    assert_eq!(Number::get_value(&slots, 0).unwrap(), num(0.5));
    assert!(matches!(bool::get_value(&slots, 1), Ok(true)));
    assert_eq!(Number::get_value(&slots, 2).unwrap(), num(2.0));
    assert_eq!(String::get_value(&slots, 3).unwrap(), "three");
    assert_eq!(slots.get_slot_type(4), WrenType::Null);
    assert!(matches!(bool::get_value(&slots, 5), Ok(false)));
    assert_eq!(Number::get_value(&slots, 6).unwrap(), num(6.0));
    assert_eq!(String::get_value(&slots, 7).unwrap(), "seven");
    assert!(matches!(bool::get_value(&slots, 8), Ok(true)));
}

#[test]
fn short_argument_lists_keep_later_slots() {
    let mut slots = Slots::new(3);
    slots.ensure_slots(4);
    slots.set_slot_bool(3, true);
    let handle = CallHandle::new(3, 1);
    assert_eq!(prepare_call(&mut slots, &handle, &(), &(num(1.0), false)), Ok(()));
    assert_eq!(slots.get_slot_count(), 4);
    assert!(matches!(bool::get_value(&slots, 2), Ok(false)));
    assert!(matches!(bool::get_value(&slots, 3), Ok(true)));
}

#[test]
fn call_with_value_handle_of_other_vm_is_rejected() {
    let mut slots = Slots::new(1);
    let call = CallHandle::new(1, 10);
    let foreign = Handle::new(2, 20);
    assert_eq!(prepare_call(&mut slots, &call, &foreign, &(true,)), Err(ContractViolation));
    assert_eq!(prepare_call(&mut slots, &call, &(), &(foreign,)), Err(ContractViolation));
    assert_eq!(prepare_call(&mut slots, &call, &Value::List, &(true,)), Err(ContractViolation));
    assert_eq!(slots.get_slot_count(), 0);
}

#[test]
fn handles_fit_only_their_own_vm() {
    let h = Handle::new(4, 8);
    assert!(h.fits(4));
    assert!(!h.fits(5));
    assert!(true.fits(5));
    assert!(WrenArguments::fits(&(num(1.0), h), 4));
    assert!(!WrenArguments::fits(&(num(1.0), h), 5));
    assert!(Value::Handle(h).fits(4));
    assert!(!Value::Handle(h).fits(6));
}
