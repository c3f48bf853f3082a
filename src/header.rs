//! The shared header: the block of host state that a virtual machine carries
//! in its user-data pointer.
//!
//! It holds the reference count that keeps the machine alive while the
//! machine wrapper or any handle still needs it, the single-slot buffer in
//! which the machine's error callbacks build up a structured error, and the
//! registry of foreign classes.

use vstd::prelude::*;

use crate::error::{frames_view, Error, ErrorView, FrameView, StackFrame};
use crate::foreigns::{ForeignClass, ForeignRegistry};
use crate::raw::InterpretError;

verus! {

#[verifier::external_type_specification]
#[verifier::external_body]
pub struct ExLayout(std::alloc::Layout);

/// The kind of report that the machine's error callback makes.
#[derive(Debug, Clone, Copy, PartialEq, Eq, Structural, Hash)]
pub enum ErrorKind {
    /// A compile error, which opens a new error.
    Compile,
    /// A runtime error, which opens a new error with an empty stack trace.
    Runtime,
    /// One frame of the stack trace of the runtime error being reported.
    StackTrace,
}

/// What a release of the reference count asks of its caller.
#[derive(Debug, Clone, Copy, PartialEq, Eq, Structural, Hash)]
pub enum Release {
    /// Other holders remain: nothing is to be done.
    Retained,
    /// This was the last holder: the embedder payload is to be dropped, the
    /// machine freed and the combined allocation released, in that order.
    TearDown,
}

/// One operation on the reference count.
pub enum RefOp {
    Claim,
    Release,
}

/// The count after one operation.
pub open spec fn step(count: nat, op: RefOp) -> nat {
    match op {
        RefOp::Claim => count + 1,
        RefOp::Release => (count - 1) as nat,
    }
}

/// The count after the operations `ops`, starting from `start`.
pub open spec fn count_after(start: nat, ops: Seq<RefOp>) -> nat
    decreases ops.len(),
{
    if ops.len() == 0 {
        start
    } else {
        step(count_after(start, ops.drop_last()), ops.last())
    }
}

/// Whether an operation on a count of `count` tears the machine down.
pub open spec fn tears_down(count: nat, op: RefOp) -> bool {
    op is Release && count == 1
}

/// Whether each operation of `ops` happens while the machine is alive, that
/// is, on a count above zero; the count starts at the one claim that the
/// machine wrapper holds.
pub open spec fn live_trace(ops: Seq<RefOp>) -> bool {
    forall|i: int| 0 <= i < ops.len() ==> count_after(1, #[trigger] ops.take(i)) > 0
}

/// Whether the operation at `i` of `ops` tears the machine down.
pub open spec fn tears_down_at(ops: Seq<RefOp>, i: int) -> bool {
    tears_down(count_after(1, ops.take(i)), ops[i])
}

/// The error that a failed run reports: the pending one, or, where the
/// machine reported none, an empty one of the run's kind.
pub open spec fn drained(pending: Option<ErrorView>, kind: InterpretError) -> ErrorView {
    match pending {
        Some(e) => e,
        None => match kind {
            InterpretError::Compile => ErrorView::Compile {
                module: Seq::empty(),
                line: 0,
                message: Seq::empty(),
            },
            InterpretError::Runtime => ErrorView::Runtime {
                message: Seq::empty(),
                stack_trace: Seq::empty(),
            },
        },
    }
}

/// The host state attached to one virtual machine.
#[derive(Debug)]
pub struct WrenHeader {
    inner_layout: std::alloc::Layout,
    ref_count: usize,
    pending_error: Option<Error>,
    foreign_classes: ForeignRegistry,
}

impl WrenHeader {
    /// The number of holders of the machine.
    pub closed spec fn count(&self) -> nat {
        self.ref_count as nat
    }

    /// The error that the callbacks have built up and nobody has taken yet.
    pub closed spec fn pending(&self) -> Option<ErrorView> {
        match self.pending_error {
            Some(e) => Some(e@),
            None => None,
        }
    }

    /// The layout of the allocation that holds the header and the payload.
    pub closed spec fn layout(&self) -> std::alloc::Layout {
        self.inner_layout
    }

    /// The registry of foreign classes.
    pub closed spec fn registry(&self) -> ForeignRegistry {
        self.foreign_classes
    }

    /// The registry holds no two classes with one module and name.
    pub open spec fn wf(&self) -> bool {
        self.registry().wf()
    }

    /// A header for an allocation of `inner_layout`, held once by the machine
    /// wrapper, with no pending error and no foreign classes.
    pub fn new(inner_layout: std::alloc::Layout) -> (r: WrenHeader)
        ensures
            r.wf(),
            r.count() == 1,
            r.pending() is None,
            r.layout() == inner_layout,
            r.registry().classes() == Seq::<ForeignClass>::empty(),
    {
        WrenHeader {
            inner_layout,
            ref_count: 1,
            pending_error: None,
            foreign_classes: ForeignRegistry::new(),
        }
    }

    /// The layout of the allocation that holds the header and the payload.
    pub fn inner_layout(&self) -> (r: &std::alloc::Layout)
        ensures
            *r == self.layout(),
    {
        &self.inner_layout
    }

    /// The number of holders of the machine.
    pub fn ref_count(&self) -> (r: usize)
        ensures
            r == self.count(),
    {
        self.ref_count
    }

    /// Adds a holder. The count must not overflow: that would be a logic
    /// error of the caller.
    pub fn claim(&mut self)
        requires
            old(self).count() < usize::MAX,
        ensures
            final(self).count() == step(old(self).count(), RefOp::Claim),
            final(self).pending() == old(self).pending(),
            final(self).layout() == old(self).layout(),
            final(self).registry() == old(self).registry(),
    {
        self.ref_count = self.ref_count + 1;
    }

    /// Removes a holder, and says whether it was the last one. Each release
    /// pairs with a claim, or with the holding of the machine wrapper.
    pub fn release(&mut self) -> (r: Release)
        requires
            old(self).count() > 0,
        ensures
            final(self).count() == step(old(self).count(), RefOp::Release),
            (r == Release::TearDown) == tears_down(old(self).count(), RefOp::Release),
            final(self).pending() == old(self).pending(),
            final(self).layout() == old(self).layout(),
            final(self).registry() == old(self).registry(),
    {
        self.ref_count = self.ref_count - 1;
        if self.ref_count == 0 {
            Release::TearDown
        } else {
            Release::Retained
        }
    }

    /// Whether the error callback may report `kind` now: a stack frame needs a
    /// pending runtime error.
    pub fn accepts(&self, kind: ErrorKind) -> (r: bool)
        ensures
            r == (kind != ErrorKind::StackTrace || self.pending() matches Some(
                ErrorView::Runtime { .. },
            )),
    {
        match kind {
            ErrorKind::StackTrace => match &self.pending_error {
                Some(Error::Runtime { .. }) => true,
                _ => false,
            },
            _ => true,
        }
    }

    /// Records one report of the error callback. A compile or runtime error
    /// replaces whatever error was pending; a stack frame is appended to the
    /// pending runtime error. For a stack frame, `message` names the method.
    pub fn record_error(&mut self, kind: ErrorKind, module: &str, line: i32, message: &str)
        requires
            kind == ErrorKind::StackTrace ==> old(self).pending() matches Some(
                ErrorView::Runtime { .. },
            ),
        ensures
            kind == ErrorKind::Compile ==> final(self).pending() == Some(
                ErrorView::Compile { module: module@, line, message: message@ },
            ),
            kind == ErrorKind::Runtime ==> final(self).pending() == Some(
                ErrorView::Runtime { message: message@, stack_trace: Seq::empty() },
            ),
            kind == ErrorKind::StackTrace ==> (old(self).pending() matches Some(
                ErrorView::Runtime { message: m, stack_trace: t },
            ) && final(self).pending() == Some(
                ErrorView::Runtime {
                    message: m,
                    stack_trace: t.push(FrameView { module: module@, line, method: message@ }),
                },
            )),
            final(self).count() == old(self).count(),
            final(self).layout() == old(self).layout(),
            final(self).registry() == old(self).registry(),
    {
        match kind {
            ErrorKind::Compile => {
                self.pending_error = Some(
                    Error::Compile { module: module.to_owned(), line, message: message.to_owned() },
                );
            },
            ErrorKind::Runtime => {
                let stack_trace: Vec<StackFrame> = Vec::new();
                proof {
                    assert(frames_view(stack_trace@) =~= Seq::<FrameView>::empty());
                }
                self.pending_error = Some(
                    Error::Runtime { message: message.to_owned(), stack_trace },
                );
            },
            ErrorKind::StackTrace => {
                let pending = self.pending_error.take();
                match pending {
                    Some(Error::Runtime { message: m, stack_trace }) => {
                        let mut frames = stack_trace;
                        let frame = StackFrame {
                            module: module.to_owned(),
                            line,
                            method: message.to_owned(),
                        };
                        let ghost before = frames@;
                        frames.push(frame);
                        proof {
                            assert(frames_view(frames@) =~= frames_view(before).push(frame@));
                        }
                        self.pending_error = Some(Error::Runtime { message: m, stack_trace: frames });
                    },
                    other => {
                        self.pending_error = other;
                    },
                }
            },
        }
    }

    /// Takes the pending error, leaving none.
    pub fn take_error(&mut self) -> (r: Option<Error>)
        ensures
            r matches Some(e) ==> old(self).pending() == Some(e@),
            r is None ==> old(self).pending() is None,
            final(self).pending() is None,
            final(self).count() == old(self).count(),
            final(self).layout() == old(self).layout(),
            final(self).registry() == old(self).registry(),
    {
        self.pending_error.take()
    }

    /// Registers a foreign class; one that shares its module and name with a
    /// registered class is handed back.
    pub fn register_foreign_class(&mut self, class: ForeignClass) -> (r: Result<usize, ForeignClass>)
        requires
            old(self).wf(),
        ensures
            final(self).wf(),
            (exists|i: int|
                0 <= i < old(self).registry().classes().len() && crate::foreigns::class_key(
                    #[trigger] old(self).registry().classes()[i],
                ) == crate::foreigns::class_key(class)) <==> r is Err,
            r matches Ok(i) ==> i == old(self).registry().classes().len()
                && final(self).registry().classes() == old(self).registry().classes().push(class),
            r matches Err(c) ==> c == class && final(self).registry().classes()
                == old(self).registry().classes(),
            final(self).count() == old(self).count(),
            final(self).pending() == old(self).pending(),
            final(self).layout() == old(self).layout(),
    {
        self.foreign_classes.register(class)
    }

    /// The registry of foreign classes.
    pub fn foreign_classes(&self) -> (r: &ForeignRegistry)
        ensures
            *r == self.registry(),
    {
        &self.foreign_classes
    }

    /// The error of a failed run of `kind`: the one that the callbacks built
    /// up during it, taken from the header.
    pub fn take_run_error(&mut self, kind: InterpretError) -> (r: Error)
        ensures
            r@ == drained(old(self).pending(), kind),
            final(self).pending() is None,
            final(self).count() == old(self).count(),
            final(self).layout() == old(self).layout(),
            final(self).registry() == old(self).registry(),
    {
        match self.take_error() {
            Some(e) => e,
            None => empty_error(kind),
        }
    }

    /// The outcome of a run of code: success, or the error that the callbacks
    /// built up during it, which is taken from the header.
    pub fn finish_run(&mut self, outcome: Result<(), InterpretError>) -> (r: Result<(), Error>)
        ensures
            outcome is Ok ==> r is Ok && *final(self) == *old(self),
            outcome matches Err(kind) ==> (r matches Err(e) && e@ == drained(
                old(self).pending(),
                kind,
            )),
            outcome is Err ==> final(self).pending() is None,
            final(self).count() == old(self).count(),
            final(self).layout() == old(self).layout(),
            final(self).registry() == old(self).registry(),
    {
        match outcome {
            Ok(()) => Ok(()),
            Err(kind) => Err(self.take_run_error(kind)),
        }
    }
}

/// An error of `kind` that carries no details.
fn empty_error(kind: InterpretError) -> (r: Error)
    ensures
        r@ == drained(None, kind),
{
    match kind {
        InterpretError::Compile => Error::Compile {
            module: String::new(),
            line: 0,
            message: String::new(),
        },
        InterpretError::Runtime => {
            let stack_trace: Vec<StackFrame> = Vec::new();
            proof {
                assert(frames_view(stack_trace@) =~= Seq::<FrameView>::empty());
            }
            Error::Runtime { message: String::new(), stack_trace }
        },
    }
}

/// The machine is torn down at most once, and exactly when the count falls
/// from one to zero: in any sequence of claims and releases that each happen
/// while the machine is alive, only the last operation can tear it down, it
/// does so exactly when it leaves the count at zero, and no earlier operation
/// leaves the count at zero.
pub proof fn lemma_teardown_exactly_once(ops: Seq<RefOp>)
    requires
        live_trace(ops),
    ensures
        forall|i: int| 0 <= i < ops.len() && tears_down_at(ops, i) ==> i == ops.len() - 1,
        forall|i: int| 0 < i < ops.len() ==> count_after(1, #[trigger] ops.take(i)) > 0,
        (count_after(1, ops) == 0) <==> (ops.len() > 0 && tears_down_at(ops, ops.len() - 1)),
{
    assert forall|i: int| 0 <= i < ops.len() implies count_after(1, #[trigger] ops.take(i + 1))
        == step(count_after(1, ops.take(i)), ops[i]) by {
        assert(ops.take(i + 1).drop_last() =~= ops.take(i));
    }
    assert forall|i: int| 0 <= i < ops.len() && tears_down_at(ops, i) implies i == ops.len()
        - 1 by {
        if i < ops.len() - 1 {
            assert(count_after(1, ops.take(i + 1)) > 0);
        }
    }
    if ops.len() > 0 {
        assert(ops.take(ops.len() as int) =~= ops);
        let last = ops.len() - 1;
        assert(count_after(1, ops.take(last)) > 0);
    } else {
        assert(count_after(1, ops) == 1);
    }
}

} // verus!
