//! Type tags of slot values and results of running code.

use vstd::prelude::*;

verus! {

/// The type of a value stored in a slot.
#[derive(Debug, Clone, Copy, PartialEq, Eq, Structural, Hash)]
pub enum WrenType {
    Null,
    Bool,
    Num,
    String,
    List,
    Mapping,
    Unknown,
    Foreign,
}

impl Default for WrenType {
    fn default() -> (r: WrenType)
        ensures
            r == WrenType::Null,
    {
        WrenType::Null
    }
}

/// The type of error encountered when interpreting a string of source code.
#[derive(Debug, Clone, Copy, PartialEq, Eq, Structural, Hash)]
pub enum InterpretError {
    Compile,
    Runtime,
}

} // verus!
