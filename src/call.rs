//! The call protocol: a compiled method signature is invoked on a receiver in
//! slot zero with its arguments in the slots after it, and the result comes
//! back in slot zero.

use vstd::prelude::*;

use crate::error::Error;
use crate::header::{drained, WrenHeader};
use crate::raw::InterpretError;
use crate::slots::{place_args, put, read, Slots};
use crate::value::{FromWren, IntoWren, WrenArguments};

verus! {

/// A compiled method signature of one virtual machine: the address of that
/// machine and the address of the native call handle.
#[derive(Debug, Clone, Copy, PartialEq, Eq, Structural, Hash)]
pub struct CallHandle {
    pub vm: usize,
    pub ptr: usize,
}

impl CallHandle {
    pub fn new(vm: usize, ptr: usize) -> (r: CallHandle)
        ensures
            r.vm == vm,
            r.ptr == ptr,
    {
        CallHandle { vm, ptr }
    }
}

/// A call handle, or a handle among the receiver and arguments, was used
/// with another machine than the one that made it.
#[derive(Debug, Clone, Copy, PartialEq, Eq, Structural, Hash)]
pub struct ContractViolation;

/// Sets up a call of `handle`: the receiver goes into slot zero and the
/// arguments into the slots after it. A call handle of another machine, or a
/// receiver or argument that cannot go into this machine's slots (a handle of
/// another machine), is rejected, and the slots are then left as they were.
pub fn prepare_call<R: IntoWren + ?Sized, A: WrenArguments>(
    slots: &mut Slots,
    handle: &CallHandle,
    receiver: &R,
    args: &A,
) -> (r: Result<(), ContractViolation>)
    requires
        old(slots).wf(),
    ensures
        r is Ok <==> (handle.vm == old(slots).owner() && receiver.fits_vm(old(slots).owner())
            && args.fits_vm(old(slots).owner())),
        r is Err ==> final(slots)@ == old(slots)@,
        r is Ok ==> final(slots)@ == place_args(
            put(old(slots)@, 0, receiver.slot_value()),
            args.arg_values(),
        ),
        final(slots).owner() == old(slots).owner(),
        final(slots).wf(),
{
    let vm = slots.vm();
    if handle.vm != vm || !receiver.fits(vm) || !args.fits(vm) {
        return Err(ContractViolation);
    }
    receiver.put_value(slots, 0);
    args.prepare(slots);
    Ok(())
}

/// The result of a call: on success the value in slot zero, read as `T`; on
/// failure the error that the callbacks built up, taken from the header.
pub fn finish_call<T: FromWren>(
    header: &mut WrenHeader,
    outcome: Result<(), InterpretError>,
    slots: &Slots,
) -> (r: Result<T, Error>)
    ensures
        outcome is Ok ==> T::decodes(read(slots@, 0), r) && *final(header) == *old(header),
        outcome matches Err(kind) ==> (r matches Err(e) && e@ == drained(
            old(header).pending(),
            kind,
        )),
        outcome is Err ==> final(header).pending() is None,
        final(header).count() == old(header).count(),
        final(header).layout() == old(header).layout(),
        final(header).registry() == old(header).registry(),
{
    match outcome {
        Ok(()) => T::get_value(slots, 0),
        Err(kind) => Err(header.take_run_error(kind)),
    }
}

} // verus!
