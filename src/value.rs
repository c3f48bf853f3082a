//! Values which can be passed to or from the virtual machine through slots.

use vstd::prelude::*;

use vstd::utf8::{decode_utf8, valid_utf8};

use crate::error::{mismatch, Error, ErrorView};
use crate::raw::WrenType;
use crate::slots::{place_args, put, read, Slots, MAX_SLOTS};

verus! {

/// A number as the virtual machine stores it: the bit pattern of an IEEE 754
/// double.
#[derive(Debug, Clone, Copy, PartialEq, Eq, Structural, Hash)]
pub struct Number {
    pub bits: u64,
}

impl Number {
    pub fn from_bits(bits: u64) -> (r: Number)
        ensures
            r.bits == bits,
    {
        Number { bits }
    }

    pub fn to_bits(&self) -> (r: u64)
        ensures
            r == self.bits,
    {
        self.bits
    }
}

/// A reference to a live value of one virtual machine: the address of that
/// machine and the address of the native handle that keeps the value alive.
#[derive(Debug, Clone, Copy, PartialEq, Eq, Structural, Hash)]
pub struct Handle {
    pub vm: usize,
    pub ptr: usize,
}

impl Handle {
    pub fn new(vm: usize, ptr: usize) -> (r: Handle)
        ensures
            r.vm == vm,
            r.ptr == ptr,
    {
        Handle { vm, ptr }
    }
}

/// The contents of one slot, as the host sees them.
///
/// The host can read the scalar values; of a list, a map, a foreign object or
/// another object it learns only the type. A slot that the host filled from a
/// handle holds that handle until the virtual machine resolves it.
#[derive(Debug, Clone)]
pub enum Value {
    Null,
    Bool(bool),
    Num(Number),
    String(Vec<u8>),
    List,
    Mapping,
    Foreign,
    Unknown,
    Handle(Handle),
}

/// What a slot holds, with the bytes of a string as a sequence.
pub enum ValueView {
    Null,
    Bool(bool),
    Num(Number),
    String(Seq<u8>),
    List,
    Mapping,
    Foreign,
    Unknown,
    Handle(Handle),
}

impl View for Value {
    type V = ValueView;

    open spec fn view(&self) -> ValueView {
        match self {
            Value::Null => ValueView::Null,
            Value::Bool(b) => ValueView::Bool(*b),
            Value::Num(n) => ValueView::Num(*n),
            Value::String(bytes) => ValueView::String(bytes@),
            Value::List => ValueView::List,
            Value::Mapping => ValueView::Mapping,
            Value::Foreign => ValueView::Foreign,
            Value::Unknown => ValueView::Unknown,
            Value::Handle(h) => ValueView::Handle(*h),
        }
    }
}

/// The type tag of a slot's contents. The type of a value held through a
/// handle is not known to the host.
pub open spec fn type_of(v: ValueView) -> WrenType {
    match v {
        ValueView::Null => WrenType::Null,
        ValueView::Bool(_) => WrenType::Bool,
        ValueView::Num(_) => WrenType::Num,
        ValueView::String(_) => WrenType::String,
        ValueView::List => WrenType::List,
        ValueView::Mapping => WrenType::Mapping,
        ValueView::Foreign => WrenType::Foreign,
        ValueView::Unknown => WrenType::Unknown,
        ValueView::Handle(_) => WrenType::Unknown,
    }
}

impl Value {
    /// The type tag of this value.
    pub fn wren_type(&self) -> (r: WrenType)
        ensures
            r == type_of(self@),
    {
        match self {
            Value::Null => WrenType::Null,
            Value::Bool(_) => WrenType::Bool,
            Value::Num(_) => WrenType::Num,
            Value::String(_) => WrenType::String,
            Value::List => WrenType::List,
            Value::Mapping => WrenType::Mapping,
            Value::Foreign => WrenType::Foreign,
            Value::Unknown => WrenType::Unknown,
            Value::Handle(_) => WrenType::Unknown,
        }
    }

    /// A copy of this value.
    pub fn duplicate(&self) -> (r: Value)
        ensures
            r@ == self@,
    {
        match self {
            Value::Null => Value::Null,
            Value::Bool(b) => Value::Bool(*b),
            Value::Num(n) => Value::Num(*n),
            Value::String(bytes) => Value::String(vstd::slice::slice_to_vec(bytes.as_slice())),
            Value::List => Value::List,
            Value::Mapping => Value::Mapping,
            Value::Foreign => Value::Foreign,
            Value::Unknown => Value::Unknown,
            Value::Handle(h) => Value::Handle(*h),
        }
    }
}

/// What `String::from_utf8_lossy` makes of `bytes`.
pub uninterp spec fn utf8_lossy(bytes: Seq<u8>) -> Seq<char>;

/// Relies on `String::from_utf8`: it succeeds exactly on valid UTF-8 and then
/// holds the decoded characters.
#[verifier::external_body]
fn text_from_utf8(bytes: Vec<u8>) -> (r: Option<String>)
    ensures
        r is Some <==> valid_utf8(bytes@),
        r matches Some(s) ==> s@ == decode_utf8(bytes@),
{
    String::from_utf8(bytes).ok()
}

/// Relies on `String::from_utf8_lossy`: valid UTF-8 is decoded as it stands;
/// invalid sequences become replacement characters.
#[verifier::external_body]
fn text_from_utf8_lossy(bytes: &[u8]) -> (r: String)
    ensures
        r@ == utf8_lossy(bytes@),
        valid_utf8(bytes@) ==> r@ == decode_utf8(bytes@),
{
    String::from_utf8_lossy(bytes).into_owned()
}

/// A host value that can be written into a slot.
pub trait IntoWren {
    /// What the value puts in a slot.
    spec fn slot_value(&self) -> ValueView;

    /// Whether the value may go into a slot of the machine at `vm`.
    spec fn fits_vm(&self, vm: usize) -> bool;

    /// Whether the value may go into a slot of the machine at `vm`.
    fn fits(&self, vm: usize) -> (r: bool)
        ensures
            r == self.fits_vm(vm),
    ;

    /// Writes the value into `slot`, growing the slot array first if needed.
    fn put_value(&self, slots: &mut Slots, slot: usize)
        requires
            slot < MAX_SLOTS,
            old(slots).wf(),
            self.fits_vm(old(slots).owner()),
        ensures
            final(slots)@ == put(old(slots)@, slot as nat, self.slot_value()),
            final(slots).owner() == old(slots).owner(),
            final(slots).wf(),
    ;
}

/// Writes `v` into `slot` of `slots`, growing the array first.
fn put_slot_value(slots: &mut Slots, slot: usize, v: Value)
    requires
        slot < MAX_SLOTS,
        old(slots).wf(),
    ensures
        final(slots)@ == put(old(slots)@, slot as nat, v@),
        final(slots).owner() == old(slots).owner(),
        final(slots).wf(),
{
    slots.ensure_slots(slot + 1);
    slots.set_slot(slot, v);
}

impl IntoWren for () {
    open spec fn slot_value(&self) -> ValueView {
        ValueView::Null
    }

    open spec fn fits_vm(&self, vm: usize) -> bool {
        true
    }

    fn fits(&self, vm: usize) -> (r: bool) {
        true
    }

    fn put_value(&self, slots: &mut Slots, slot: usize) {
        slots.ensure_slots(slot + 1);
        slots.set_slot_null(slot);
    }
}

impl IntoWren for bool {
    open spec fn slot_value(&self) -> ValueView {
        ValueView::Bool(*self)
    }

    open spec fn fits_vm(&self, vm: usize) -> bool {
        true
    }

    fn fits(&self, vm: usize) -> (r: bool) {
        true
    }

    fn put_value(&self, slots: &mut Slots, slot: usize) {
        slots.ensure_slots(slot + 1);
        slots.set_slot_bool(slot, *self);
    }
}

impl IntoWren for Number {
    open spec fn slot_value(&self) -> ValueView {
        ValueView::Num(*self)
    }

    open spec fn fits_vm(&self, vm: usize) -> bool {
        true
    }

    fn fits(&self, vm: usize) -> (r: bool) {
        true
    }

    fn put_value(&self, slots: &mut Slots, slot: usize) {
        slots.ensure_slots(slot + 1);
        slots.set_slot_double(slot, *self);
    }
}

impl IntoWren for [u8] {
    open spec fn slot_value(&self) -> ValueView {
        ValueView::String(self@)
    }

    open spec fn fits_vm(&self, vm: usize) -> bool {
        true
    }

    fn fits(&self, vm: usize) -> (r: bool) {
        true
    }

    fn put_value(&self, slots: &mut Slots, slot: usize) {
        slots.ensure_slots(slot + 1);
        slots.set_slot_bytes(slot, self);
    }
}

impl IntoWren for str {
    open spec fn slot_value(&self) -> ValueView {
        ValueView::String(vstd::utf8::encode_utf8(self@))
    }

    open spec fn fits_vm(&self, vm: usize) -> bool {
        true
    }

    fn fits(&self, vm: usize) -> (r: bool) {
        true
    }

    fn put_value(&self, slots: &mut Slots, slot: usize) {
        self.as_bytes().put_value(slots, slot);
    }
}

impl IntoWren for String {
    open spec fn slot_value(&self) -> ValueView {
        ValueView::String(vstd::utf8::encode_utf8(self@))
    }

    open spec fn fits_vm(&self, vm: usize) -> bool {
        true
    }

    fn fits(&self, vm: usize) -> (r: bool) {
        true
    }

    fn put_value(&self, slots: &mut Slots, slot: usize) {
        self.as_str().put_value(slots, slot);
    }
}

impl IntoWren for Handle {
    open spec fn slot_value(&self) -> ValueView {
        ValueView::Handle(*self)
    }

    /// A handle may only be used with the machine that made it.
    open spec fn fits_vm(&self, vm: usize) -> bool {
        self.vm == vm
    }

    fn fits(&self, vm: usize) -> (r: bool) {
        self.vm == vm
    }

    fn put_value(&self, slots: &mut Slots, slot: usize) {
        slots.ensure_slots(slot + 1);
        slots.set_slot_handle(slot, *self);
    }
}

impl<T: IntoWren + ?Sized> IntoWren for &T {
    open spec fn slot_value(&self) -> ValueView {
        (**self).slot_value()
    }

    open spec fn fits_vm(&self, vm: usize) -> bool {
        (**self).fits_vm(vm)
    }

    fn fits(&self, vm: usize) -> (r: bool) {
        (**self).fits(vm)
    }

    fn put_value(&self, slots: &mut Slots, slot: usize) {
        (**self).put_value(slots, slot);
    }
}

impl IntoWren for Value {
    open spec fn slot_value(&self) -> ValueView {
        self@
    }

    /// The host can write null, booleans, numbers, strings and handles of
    /// the same machine; it cannot make a list, a map, a foreign object or
    /// an object of unknown type out of a bare tag.
    open spec fn fits_vm(&self, vm: usize) -> bool {
        match self {
            Value::Handle(h) => h.vm == vm,
            Value::List | Value::Mapping | Value::Foreign | Value::Unknown => false,
            _ => true,
        }
    }

    fn fits(&self, vm: usize) -> (r: bool) {
        match self {
            Value::Handle(h) => h.vm == vm,
            Value::List | Value::Mapping | Value::Foreign | Value::Unknown => false,
            _ => true,
        }
    }

    fn put_value(&self, slots: &mut Slots, slot: usize) {
        put_slot_value(slots, slot, self.duplicate());
    }
}

/// A host value that can be read out of a slot.
pub trait FromWren: Sized {
    /// Whether `r` is what reading a slot that holds `v` yields.
    spec fn decodes(v: ValueView, r: Result<Self, Error>) -> bool;

    /// Reads the value in `slot`; a slot past the end reads as null. The slot
    /// is left as it is, whether or not the conversion succeeds.
    fn get_value(slots: &Slots, slot: usize) -> (r: Result<Self, Error>)
        ensures
            Self::decodes(read(slots@, slot as nat), r),
    ;
}

/// Whether `r` is the type mismatch for a slot holding `v` where a value of
/// type `expected` was asked for.
pub open spec fn mismatched<T>(v: ValueView, expected: WrenType, r: Result<T, Error>) -> bool {
    r matches Err(e) && e@ == mismatch(expected, type_of(v))
}

impl FromWren for Value {
    open spec fn decodes(v: ValueView, r: Result<Value, Error>) -> bool {
        r matches Ok(x) && x@ == v
    }

    fn get_value(slots: &Slots, slot: usize) -> (r: Result<Value, Error>) {
        Ok(slots.get_value(slot))
    }
}

impl FromWren for () {
    open spec fn decodes(v: ValueView, r: Result<(), Error>) -> bool {
        if v is Null {
            r is Ok
        } else {
            mismatched(v, WrenType::Null, r)
        }
    }

    fn get_value(slots: &Slots, slot: usize) -> (r: Result<(), Error>) {
        let v = slots.get_value(slot);
        match v {
            Value::Null => Ok(()),
            _ => Err(Error::mismatched(WrenType::Null, v.wren_type())),
        }
    }
}

impl FromWren for bool {
    open spec fn decodes(v: ValueView, r: Result<bool, Error>) -> bool {
        match v {
            ValueView::Bool(b) => r == Ok::<bool, Error>(b),
            _ => mismatched(v, WrenType::Bool, r),
        }
    }

    fn get_value(slots: &Slots, slot: usize) -> (r: Result<bool, Error>) {
        let v = slots.get_value(slot);
        match v {
            Value::Bool(b) => Ok(b),
            _ => Err(Error::mismatched(WrenType::Bool, v.wren_type())),
        }
    }
}

impl FromWren for Number {
    open spec fn decodes(v: ValueView, r: Result<Number, Error>) -> bool {
        match v {
            ValueView::Num(n) => r == Ok::<Number, Error>(n),
            _ => mismatched(v, WrenType::Num, r),
        }
    }

    fn get_value(slots: &Slots, slot: usize) -> (r: Result<Number, Error>) {
        let v = slots.get_value(slot);
        match v {
            Value::Num(n) => Ok(n),
            _ => Err(Error::mismatched(WrenType::Num, v.wren_type())),
        }
    }
}

impl FromWren for Vec<u8> {
    open spec fn decodes(v: ValueView, r: Result<Vec<u8>, Error>) -> bool {
        match v {
            ValueView::String(bytes) => r matches Ok(x) && x@ == bytes,
            _ => mismatched(v, WrenType::String, r),
        }
    }

    fn get_value(slots: &Slots, slot: usize) -> (r: Result<Vec<u8>, Error>) {
        let v = slots.get_value(slot);
        match v {
            Value::String(bytes) => Ok(bytes),
            _ => Err(Error::mismatched(WrenType::String, v.wren_type())),
        }
    }
}

impl FromWren for String {
    /// Bytes that are not valid UTF-8 fail to decode.
    open spec fn decodes(v: ValueView, r: Result<String, Error>) -> bool {
        match v {
            ValueView::String(bytes) => if valid_utf8(bytes) {
                r matches Ok(s) && s@ == decode_utf8(bytes)
            } else {
                r matches Err(e) && e@ == ErrorView::InvalidEncoding
            },
            _ => mismatched(v, WrenType::String, r),
        }
    }

    fn get_value(slots: &Slots, slot: usize) -> (r: Result<String, Error>) {
        let v = slots.get_value(slot);
        match v {
            Value::String(bytes) => match text_from_utf8(bytes) {
                Some(s) => Ok(s),
                None => Err(Error::InvalidEncoding),
            },
            _ => Err(Error::mismatched(WrenType::String, v.wren_type())),
        }
    }
}

/// Reads the string in `slot`, replacing each sequence of bytes that is not
/// valid UTF-8 by a replacement character.
pub fn get_string_lossy(slots: &Slots, slot: usize) -> (r: Result<String, Error>)
    ensures
        match read(slots@, slot as nat) {
            ValueView::String(bytes) => r matches Ok(s) && s@ == utf8_lossy(bytes) && (
            valid_utf8(bytes) ==> s@ == decode_utf8(bytes)),
            v => mismatched(v, WrenType::String, r),
        },
{
    if slot < slots.get_slot_count() && slots.get_slot_type(slot) == WrenType::String {
        Ok(text_from_utf8_lossy(slots.get_slot_bytes(slot)))
    } else {
        let v = slots.get_value(slot);
        Err(Error::mismatched(WrenType::String, v.wren_type()))
    }
}

/// A tuple of values which can be passed as the arguments of a method call.
///
/// It is implemented for tuples of length one to eight. Passing no arguments
/// is not supported, as every method call takes a receiver in slot zero.
pub trait WrenArguments {
    /// The values that the arguments put in slots one, two and so on.
    spec fn arg_values(&self) -> Seq<ValueView>;

    /// Whether every argument may go into a slot of the machine at `vm`.
    spec fn fits_vm(&self, vm: usize) -> bool;

    /// Whether every argument may go into a slot of the machine at `vm`.
    fn fits(&self, vm: usize) -> (r: bool)
        ensures
            r == self.fits_vm(vm),
    ;

    /// Writes the arguments into slots one, two and so on.
    fn prepare(&self, slots: &mut Slots)
        requires
            old(slots).wf(),
            self.fits_vm(old(slots).owner()),
        ensures
            final(slots)@ == place_args(old(slots)@, self.arg_values()),
            final(slots).owner() == old(slots).owner(),
            final(slots).wf(),
    ;
}

impl<A: IntoWren> WrenArguments for (A,) {
    open spec fn arg_values(&self) -> Seq<ValueView> {
        seq![self.0.slot_value()]
    }

    open spec fn fits_vm(&self, vm: usize) -> bool {
        self.0.fits_vm(vm)
    }

    fn fits(&self, vm: usize) -> (r: bool) {
        self.0.fits(vm)
    }

    fn prepare(&self, slots: &mut Slots) {
        self.0.put_value(slots, 1);
        proof {
            assert(slots@ =~= place_args(old(slots)@, self.arg_values()));
        }
    }
}

impl<A: IntoWren, B: IntoWren> WrenArguments for (A, B) {
    open spec fn arg_values(&self) -> Seq<ValueView> {
        seq![self.0.slot_value(), self.1.slot_value()]
    }

    open spec fn fits_vm(&self, vm: usize) -> bool {
        self.0.fits_vm(vm) && self.1.fits_vm(vm)
    }

    fn fits(&self, vm: usize) -> (r: bool) {
        self.0.fits(vm) && self.1.fits(vm)
    }

    fn prepare(&self, slots: &mut Slots) {
        self.0.put_value(slots, 1);
        self.1.put_value(slots, 2);
        proof {
            assert(slots@ =~= place_args(old(slots)@, self.arg_values()));
        }
    }
}

impl<A: IntoWren, B: IntoWren, C: IntoWren> WrenArguments for (A, B, C) {
    open spec fn arg_values(&self) -> Seq<ValueView> {
        seq![self.0.slot_value(), self.1.slot_value(), self.2.slot_value()]
    }

    open spec fn fits_vm(&self, vm: usize) -> bool {
        self.0.fits_vm(vm) && self.1.fits_vm(vm) && self.2.fits_vm(vm)
    }

    fn fits(&self, vm: usize) -> (r: bool) {
        self.0.fits(vm) && self.1.fits(vm) && self.2.fits(vm)
    }

    fn prepare(&self, slots: &mut Slots) {
        self.0.put_value(slots, 1);
        self.1.put_value(slots, 2);
        self.2.put_value(slots, 3);
        proof {
            assert(slots@ =~= place_args(old(slots)@, self.arg_values()));
        }
    }
}

impl<A: IntoWren, B: IntoWren, C: IntoWren, D: IntoWren> WrenArguments for (A, B, C, D) {
    open spec fn arg_values(&self) -> Seq<ValueView> {
        seq![self.0.slot_value(), self.1.slot_value(), self.2.slot_value(), self.3.slot_value()]
    }

    open spec fn fits_vm(&self, vm: usize) -> bool {
        self.0.fits_vm(vm) && self.1.fits_vm(vm) && self.2.fits_vm(vm) && self.3.fits_vm(vm)
    }

    fn fits(&self, vm: usize) -> (r: bool) {
        self.0.fits(vm) && self.1.fits(vm) && self.2.fits(vm) && self.3.fits(vm)
    }

    fn prepare(&self, slots: &mut Slots) {
        self.0.put_value(slots, 1);
        self.1.put_value(slots, 2);
        self.2.put_value(slots, 3);
        self.3.put_value(slots, 4);
        proof {
            assert(slots@ =~= place_args(old(slots)@, self.arg_values()));
        }
    }
}

impl<A: IntoWren, B: IntoWren, C: IntoWren, D: IntoWren, E: IntoWren> WrenArguments for (A, B, C, D, E) {
    open spec fn arg_values(&self) -> Seq<ValueView> {
        seq![self.0.slot_value(), self.1.slot_value(), self.2.slot_value(), self.3.slot_value(), self.4.slot_value()]
    }

    open spec fn fits_vm(&self, vm: usize) -> bool {
        self.0.fits_vm(vm) && self.1.fits_vm(vm) && self.2.fits_vm(vm) && self.3.fits_vm(vm) && self.4.fits_vm(vm)
    }

    fn fits(&self, vm: usize) -> (r: bool) {
        self.0.fits(vm) && self.1.fits(vm) && self.2.fits(vm) && self.3.fits(vm) && self.4.fits(vm)
    }

    fn prepare(&self, slots: &mut Slots) {
        self.0.put_value(slots, 1);
        self.1.put_value(slots, 2);
        self.2.put_value(slots, 3);
        self.3.put_value(slots, 4);
        self.4.put_value(slots, 5);
        proof {
            assert(slots@ =~= place_args(old(slots)@, self.arg_values()));
        }
    }
}

impl<A: IntoWren, B: IntoWren, C: IntoWren, D: IntoWren, E: IntoWren, F: IntoWren> WrenArguments for (A, B, C, D, E, F) {
    open spec fn arg_values(&self) -> Seq<ValueView> {
        seq![self.0.slot_value(), self.1.slot_value(), self.2.slot_value(), self.3.slot_value(), self.4.slot_value(), self.5.slot_value()]
    }

    open spec fn fits_vm(&self, vm: usize) -> bool {
        self.0.fits_vm(vm) && self.1.fits_vm(vm) && self.2.fits_vm(vm) && self.3.fits_vm(vm) && self.4.fits_vm(vm) && self.5.fits_vm(vm)
    }

    fn fits(&self, vm: usize) -> (r: bool) {
        self.0.fits(vm) && self.1.fits(vm) && self.2.fits(vm) && self.3.fits(vm) && self.4.fits(vm) && self.5.fits(vm)
    }

    fn prepare(&self, slots: &mut Slots) {
        self.0.put_value(slots, 1);
        self.1.put_value(slots, 2);
        self.2.put_value(slots, 3);
        self.3.put_value(slots, 4);
        self.4.put_value(slots, 5);
        self.5.put_value(slots, 6);
        proof {
            assert(slots@ =~= place_args(old(slots)@, self.arg_values()));
        }
    }
}

impl<A: IntoWren, B: IntoWren, C: IntoWren, D: IntoWren, E: IntoWren, F: IntoWren, G: IntoWren> WrenArguments for (A, B, C, D, E, F, G) {
    open spec fn arg_values(&self) -> Seq<ValueView> {
        seq![self.0.slot_value(), self.1.slot_value(), self.2.slot_value(), self.3.slot_value(), self.4.slot_value(), self.5.slot_value(), self.6.slot_value()]
    }

    open spec fn fits_vm(&self, vm: usize) -> bool {
        self.0.fits_vm(vm) && self.1.fits_vm(vm) && self.2.fits_vm(vm) && self.3.fits_vm(vm) && self.4.fits_vm(vm) && self.5.fits_vm(vm) && self.6.fits_vm(vm)
    }

    fn fits(&self, vm: usize) -> (r: bool) {
        self.0.fits(vm) && self.1.fits(vm) && self.2.fits(vm) && self.3.fits(vm) && self.4.fits(vm) && self.5.fits(vm) && self.6.fits(vm)
    }

    fn prepare(&self, slots: &mut Slots) {
        self.0.put_value(slots, 1);
        self.1.put_value(slots, 2);
        self.2.put_value(slots, 3);
        self.3.put_value(slots, 4);
        self.4.put_value(slots, 5);
        self.5.put_value(slots, 6);
        self.6.put_value(slots, 7);
        proof {
            assert(slots@ =~= place_args(old(slots)@, self.arg_values()));
        }
    }
}

impl<A: IntoWren, B: IntoWren, C: IntoWren, D: IntoWren, E: IntoWren, F: IntoWren, G: IntoWren, H: IntoWren> WrenArguments for (A, B, C, D, E, F, G, H) {
    open spec fn arg_values(&self) -> Seq<ValueView> {
        seq![self.0.slot_value(), self.1.slot_value(), self.2.slot_value(), self.3.slot_value(), self.4.slot_value(), self.5.slot_value(), self.6.slot_value(), self.7.slot_value()]
    }

    open spec fn fits_vm(&self, vm: usize) -> bool {
        self.0.fits_vm(vm) && self.1.fits_vm(vm) && self.2.fits_vm(vm) && self.3.fits_vm(vm) && self.4.fits_vm(vm) && self.5.fits_vm(vm) && self.6.fits_vm(vm) && self.7.fits_vm(vm)
    }

    fn fits(&self, vm: usize) -> (r: bool) {
        self.0.fits(vm) && self.1.fits(vm) && self.2.fits(vm) && self.3.fits(vm) && self.4.fits(vm) && self.5.fits(vm) && self.6.fits(vm) && self.7.fits(vm)
    }

    fn prepare(&self, slots: &mut Slots) {
        self.0.put_value(slots, 1);
        self.1.put_value(slots, 2);
        self.2.put_value(slots, 3);
        self.3.put_value(slots, 4);
        self.4.put_value(slots, 5);
        self.5.put_value(slots, 6);
        self.6.put_value(slots, 7);
        self.7.put_value(slots, 8);
        proof {
            assert(slots@ =~= place_args(old(slots)@, self.arg_values()));
        }
    }
}

/// Reading back what was written: after `put_value` of null, of a boolean, of
/// a number, of a string or of bytes into a slot, `get_value` of that slot as
/// the same type yields the value written.
pub proof fn lemma_put_get_round_trip(
    s: Seq<ValueView>,
    slot: nat,
    flag: bool,
    num: Number,
    text: String,
    bytes: Vec<u8>,
)
    ensures
        <() as FromWren>::decodes(read(put(s, slot, ().slot_value()), slot), Ok(())),
        <bool as FromWren>::decodes(read(put(s, slot, flag.slot_value()), slot), Ok(flag)),
        <Number as FromWren>::decodes(read(put(s, slot, num.slot_value()), slot), Ok(num)),
        <String as FromWren>::decodes(read(put(s, slot, text.slot_value()), slot), Ok(text)),
        <Vec<u8> as FromWren>::decodes(read(put(s, slot, ValueView::String(bytes@)), slot), Ok(bytes)),
{
    vstd::utf8::encode_utf8_valid_utf8(text@);
    vstd::utf8::encode_utf8_decode_utf8(text@);
}

} // verus!
