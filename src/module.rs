//! Loading of imported modules.

use vstd::prelude::*;

verus! {

/// Finds the source of the modules that scripts import.
pub trait ModuleLoader {
    /// The canonical name of `module` as imported by `importer`, if there is one.
    fn resolve(&self, importer: &str, module: &str) -> Option<String>;

    /// The source text of `module`, if it can be found.
    fn load(&self, module: &str) -> Option<String>;
}

/// A loader that finds no module.
#[derive(Debug, Clone, Copy, PartialEq, Eq, Structural, Hash, Default)]
pub struct Empty;

impl ModuleLoader for Empty {
    fn resolve(&self, _importer: &str, _module: &str) -> Option<String> {
        None
    }

    fn load(&self, _module: &str) -> Option<String> {
        None
    }
}

} // verus!
