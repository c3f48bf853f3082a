//! A safe facade over the Wren virtual machine's slot protocol.
//!
//! The library holds the logic of the facade: the type tags of slot values,
//! the marshalling of host values into and out of slots, the shared header
//! with its reference count and error accumulator, the registry of foreign
//! classes and the call protocol. The calls into the native virtual machine
//! itself are made by the host around it.

pub mod builder;
pub mod call;
pub mod error;
pub mod foreigns;
pub mod header;
pub mod module;
pub mod raw;
pub mod slots;
pub mod value;

pub use builder::Builder;
pub use call::CallHandle;
