//! Error values which may be returned by this library.

use vstd::prelude::*;

use crate::raw::WrenType;

verus! {

/// One frame of a runtime error's stack trace, as the virtual machine reports it.
#[derive(Debug, Clone)]
pub struct StackFrame {
    pub module: String,
    pub line: i32,
    pub method: String,
}

/// What a stack frame says, as sequences of characters.
pub struct FrameView {
    pub module: Seq<char>,
    pub line: i32,
    pub method: Seq<char>,
}

impl View for StackFrame {
    type V = FrameView;

    open spec fn view(&self) -> FrameView {
        FrameView { module: self.module@, line: self.line, method: self.method@ }
    }
}

/// A slot held a value of another type than the one asked for.
#[derive(Debug, Clone)]
pub struct MismatchedValueError {
    pub expected: Vec<WrenType>,
    pub found: WrenType,
}

/// An error of compiling or running code, or of decoding a slot.
#[derive(Debug, Clone)]
pub enum Error {
    /// The source did not compile.
    Compile { module: String, line: i32, message: String },
    /// The code raised an error while it ran.
    Runtime { message: String, stack_trace: Vec<StackFrame> },
    /// A slot held a value of another type than the one asked for.
    MismatchedValue(MismatchedValueError),
    /// A string slot held bytes that are not valid UTF-8.
    InvalidEncoding,
}

/// What an error says, as sequences.
pub enum ErrorView {
    Compile { module: Seq<char>, line: i32, message: Seq<char> },
    Runtime { message: Seq<char>, stack_trace: Seq<FrameView> },
    MismatchedValue { expected: Seq<WrenType>, found: WrenType },
    InvalidEncoding,
}

pub open spec fn frames_view(frames: Seq<StackFrame>) -> Seq<FrameView> {
    frames.map_values(|f: StackFrame| f@)
}

impl View for Error {
    type V = ErrorView;

    open spec fn view(&self) -> ErrorView {
        match self {
            Error::Compile { module, line, message } => ErrorView::Compile {
                module: module@,
                line: *line,
                message: message@,
            },
            Error::Runtime { message, stack_trace } => ErrorView::Runtime {
                message: message@,
                stack_trace: frames_view(stack_trace@),
            },
            Error::MismatchedValue(m) => ErrorView::MismatchedValue {
                expected: m.expected@,
                found: m.found,
            },
            Error::InvalidEncoding => ErrorView::InvalidEncoding,
        }
    }
}

/// The error for a slot that held `found` where a value of type `expected` was asked for.
pub open spec fn mismatch(expected: WrenType, found: WrenType) -> ErrorView {
    ErrorView::MismatchedValue { expected: seq![expected], found }
}

impl Error {
    /// The error for a slot that held `found` where a value of type `expected` was asked for.
    pub fn mismatched(expected: WrenType, found: WrenType) -> (r: Error)
        ensures
            r@ == mismatch(expected, found),
    {
        let mut types: Vec<WrenType> = Vec::new();
        types.push(expected);
        proof {
            assert(types@ =~= seq![expected]);
        }
        Error::MismatchedValue(MismatchedValueError { expected: types, found })
    }
}

} // verus!
