//! The slot array: the register-like array through which values pass between
//! the host and one virtual machine.

use vstd::prelude::*;

use crate::raw::WrenType;
use crate::value::{type_of, Handle, Number, Value, ValueView};

verus! {

/// The largest slot count that the native interface can address.
pub const MAX_SLOTS: usize = 2147483647;

/// The slots after making sure that there are at least `total` of them: the
/// array never shrinks, and each slot that it gains holds null.
pub open spec fn ensured(s: Seq<ValueView>, total: nat) -> Seq<ValueView> {
    if total <= s.len() {
        s
    } else {
        s + Seq::new((total - s.len()) as nat, |i: int| ValueView::Null)
    }
}

/// The slots after writing `v` into `slot`, growing the array first if needed.
pub open spec fn put(s: Seq<ValueView>, slot: nat, v: ValueView) -> Seq<ValueView> {
    ensured(s, slot + 1).update(slot as int, v)
}

/// What a read of `slot` yields: its contents, or null past the end. A slot
/// filled from a handle holds an object whose type the host does not know,
/// so it reads as unknown, the variant that matches its type tag.
pub open spec fn read(s: Seq<ValueView>, slot: nat) -> ValueView {
    if slot < s.len() {
        match s[slot as int] {
            ValueView::Handle(_) => ValueView::Unknown,
            v => v,
        }
    } else {
        ValueView::Null
    }
}

/// The slots after writing the arguments `args` into slots one, two and so
/// on, growing the array first if needed; slot zero is left for the receiver.
pub open spec fn place_args(s: Seq<ValueView>, args: Seq<ValueView>) -> Seq<ValueView> {
    let n = if args.len() + 1 <= s.len() { s.len() } else { args.len() + 1 };
    Seq::new(
        n,
        |i: int|
            if 1 <= i <= args.len() {
                args[i - 1]
            } else if i < s.len() {
                s[i]
            } else {
                ValueView::Null
            },
    )
}

/// The slot array of one virtual machine, identified by its address.
#[derive(Debug)]
pub struct Slots {
    vm: usize,
    values: Vec<Value>,
}

impl View for Slots {
    type V = Seq<ValueView>;

    closed spec fn view(&self) -> Seq<ValueView> {
        self.values@.map_values(|v: Value| v@)
    }
}

impl Slots {
    /// The array has no more slots than the native interface can address.
    pub open spec fn wf(&self) -> bool {
        self@.len() <= MAX_SLOTS
    }

    /// The machine these slots belong to.
    pub closed spec fn owner(&self) -> usize {
        self.vm
    }

    /// An empty slot array of the machine at `vm`.
    pub fn new(vm: usize) -> (r: Slots)
        ensures
            r@ == Seq::<ValueView>::empty(),
            r.owner() == vm,
            r.wf(),
    {
        let r = Slots { vm, values: Vec::new() };
        proof {
            assert(r@ =~= Seq::<ValueView>::empty());
        }
        r
    }

    /// The machine these slots belong to.
    pub fn vm(&self) -> (r: usize)
        ensures
            r == self.owner(),
    {
        self.vm
    }

    /// The number of slots.
    pub fn get_slot_count(&self) -> (r: usize)
        ensures
            r == self@.len(),
    {
        self.values.len()
    }

    /// Makes sure that there are at least `total` slots. The array never
    /// shrinks; every slot that it gains holds null. A count the array
    /// already has needs no bound; a larger one must be addressable.
    pub fn ensure_slots(&mut self, total: usize)
        requires
            total <= MAX_SLOTS || total <= old(self)@.len(),
        ensures
            final(self)@ == ensured(old(self)@, total as nat),
            final(self).owner() == old(self).owner(),
            old(self).wf() ==> final(self).wf(),
    {
        let ghost start = self@;
        let old_len = self.values.len();
        while self.values.len() < total
            invariant
                old_len == start.len(),
                old_len <= self.values.len(),
                old_len >= total ==> self.values.len() == old_len,
                self.values.len() <= total || self.values.len() == old_len,
                self.vm == old(self).vm,
                self@ =~= start + Seq::new(
                    (self.values.len() - old_len) as nat,
                    |i: int| ValueView::Null,
                ),
            decreases total - self.values.len(),
        {
            let ghost before = self@;
            self.values.push(Value::Null);
            assert(self@ =~= before.push(ValueView::Null));
        }
        proof {
            if total as nat <= start.len() {
                assert(self@ =~= start);
            } else {
                assert(self@ =~= ensured(start, total as nat));
            }
        }
    }

    /// The type of the value in `slot`.
    pub fn get_slot_type(&self, slot: usize) -> (r: WrenType)
        requires
            slot < self@.len(),
        ensures
            r == type_of(self@[slot as int]),
    {
        self.values[slot].wren_type()
    }

    /// Stores `value` in `slot`.
    pub fn set_slot(&mut self, slot: usize, value: Value)
        requires
            slot < old(self)@.len(),
        ensures
            final(self)@ == old(self)@.update(slot as int, value@),
            final(self).owner() == old(self).owner(),
            final(self).wf() == old(self).wf(),
    {
        self.values.set(slot, value);
        proof {
            assert(self@ =~= old(self)@.update(slot as int, value@));
        }
    }

    /// Sets `slot` to null.
    pub fn set_slot_null(&mut self, slot: usize)
        requires
            slot < old(self)@.len(),
        ensures
            final(self)@ == old(self)@.update(slot as int, ValueView::Null),
            final(self).owner() == old(self).owner(),
            final(self).wf() == old(self).wf(),
    {
        self.set_slot(slot, Value::Null);
    }

    /// Sets `slot` to the boolean `value`.
    pub fn set_slot_bool(&mut self, slot: usize, value: bool)
        requires
            slot < old(self)@.len(),
        ensures
            final(self)@ == old(self)@.update(slot as int, ValueView::Bool(value)),
            final(self).owner() == old(self).owner(),
            final(self).wf() == old(self).wf(),
    {
        self.set_slot(slot, Value::Bool(value));
    }

    /// Sets `slot` to the number `value`.
    pub fn set_slot_double(&mut self, slot: usize, value: Number)
        requires
            slot < old(self)@.len(),
        ensures
            final(self)@ == old(self)@.update(slot as int, ValueView::Num(value)),
            final(self).owner() == old(self).owner(),
            final(self).wf() == old(self).wf(),
    {
        self.set_slot(slot, Value::Num(value));
    }

    /// Sets `slot` to a string holding a copy of `bytes`; the caller's buffer
    /// is not kept.
    pub fn set_slot_bytes(&mut self, slot: usize, bytes: &[u8])
        requires
            slot < old(self)@.len(),
        ensures
            final(self)@ == old(self)@.update(slot as int, ValueView::String(bytes@)),
            final(self).owner() == old(self).owner(),
            final(self).wf() == old(self).wf(),
    {
        self.set_slot(slot, Value::String(vstd::slice::slice_to_vec(bytes)));
    }

    /// Stores the value captured by `handle` in `slot`. The handle is not
    /// released.
    pub fn set_slot_handle(&mut self, slot: usize, handle: Handle)
        requires
            slot < old(self)@.len(),
        ensures
            final(self)@ == old(self)@.update(slot as int, ValueView::Handle(handle)),
            final(self).owner() == old(self).owner(),
            final(self).wf() == old(self).wf(),
    {
        self.set_slot(slot, Value::Handle(handle));
    }

    /// The boolean stored in `slot`.
    pub fn get_slot_bool(&self, slot: usize) -> (r: bool)
        requires
            slot < self@.len(),
            self@[slot as int] is Bool,
        ensures
            self@[slot as int] == ValueView::Bool(r),
    {
        match &self.values[slot] {
            Value::Bool(b) => *b,
            _ => false,
        }
    }

    /// The number stored in `slot`.
    pub fn get_slot_double(&self, slot: usize) -> (r: Number)
        requires
            slot < self@.len(),
            self@[slot as int] is Num,
        ensures
            self@[slot as int] == ValueView::Num(r),
    {
        match &self.values[slot] {
            Value::Num(n) => *n,
            _ => Number { bits: 0 },
        }
    }

    /// The bytes of the string stored in `slot`.
    pub fn get_slot_bytes(&self, slot: usize) -> (r: &[u8])
        requires
            slot < self@.len(),
            self@[slot as int] is String,
        ensures
            self@[slot as int] == ValueView::String(r@),
    {
        match &self.values[slot] {
            Value::String(bytes) => bytes.as_slice(),
            _ => &[],
        }
    }

    /// A copy of what `slot` holds, as a read sees it: null for a slot past
    /// the end, unknown for a slot filled from a handle.
    pub fn get_value(&self, slot: usize) -> (r: Value)
        ensures
            r@ == read(self@, slot as nat),
            type_of(r@) == type_of(read(self@, slot as nat)),
    {
        if slot < self.values.len() {
            match &self.values[slot] {
                Value::Handle(_) => Value::Unknown,
                v => v.duplicate(),
            }
        } else {
            Value::Null
        }
    }

    /// A copy of what the host stored in `slot`, handles included: what is
    /// to be written into the machine's slot.
    pub fn staged_value(&self, slot: usize) -> (r: Value)
        requires
            slot < self@.len(),
        ensures
            r@ == self@[slot as int],
    {
        self.values[slot].duplicate()
    }
}

/// Making sure of a slot count is idempotent for counts that do not grow:
/// after making sure of `first` slots, making sure of `second <= first`
/// changes nothing, and neither call changes a slot that was there before.
pub proof fn lemma_ensure_slots_idempotent(s: Seq<ValueView>, first: nat, second: nat)
    requires
        second <= first,
    ensures
        ensured(ensured(s, first), second) == ensured(s, first),
        forall|i: int| 0 <= i < s.len() ==> #[trigger] ensured(s, first)[i] == s[i],
{
    assert(ensured(s, first).len() >= first);
}

/// Growing the slot array by `k` slots leaves each new slot null, and a read
/// of its type reports null.
pub proof fn lemma_ensure_slots_grows_with_null(s: Seq<ValueView>, k: nat)
    ensures
        ensured(s, s.len() + k).len() == s.len() + k,
        forall|i: int|
            s.len() <= i < s.len() + k ==> #[trigger] ensured(s, s.len() + k)[i]
                == ValueView::Null && type_of(ensured(s, s.len() + k)[i]) == WrenType::Null,
{
}

} // verus!
