//! Configuration of a virtual machine before it is created: the embedder
//! payload of user data, module loader and output sink.

use vstd::prelude::*;

use crate::module::ModuleLoader;

verus! {

/// The embedder payload that a new virtual machine will own.
#[derive(Debug, Clone, Copy, PartialEq, Eq, Hash, Default)]
pub struct Builder<U, M, W> {
    pub user_data: U,
    pub loader: M,
    pub writer: W,
}

impl<U, M, W> Builder<U, M, W> {
    /// A builder with the given user data, module loader and output sink.
    pub fn from_parts(user_data: U, loader: M, writer: W) -> (r: Builder<U, M, W>)
        ensures
            r.user_data == user_data,
            r.loader == loader,
            r.writer == writer,
    {
        Builder { user_data, loader, writer }
    }

    /// The same builder with `user_data` in place of its user data.
    pub fn with_data<T>(self, user_data: T) -> (r: Builder<T, M, W>)
        ensures
            r.user_data == user_data,
            r.loader == self.loader,
            r.writer == self.writer,
    {
        let Builder { loader, writer, .. } = self;
        Builder { user_data, loader, writer }
    }

    /// The same builder with `loader` in place of its module loader.
    pub fn with_loader<T: ModuleLoader>(self, loader: T) -> (r: Builder<U, T, W>)
        ensures
            r.user_data == self.user_data,
            r.loader == loader,
            r.writer == self.writer,
    {
        let Builder { user_data, writer, .. } = self;
        Builder { user_data, loader, writer }
    }

    /// The same builder with `writer` in place of its output sink.
    pub fn with_output<T>(self, writer: T) -> (r: Builder<U, M, T>)
        ensures
            r.user_data == self.user_data,
            r.loader == self.loader,
            r.writer == writer,
    {
        let Builder { user_data, loader, .. } = self;
        Builder { user_data, loader, writer }
    }

    /// The user data, module loader and output sink.
    pub fn into_parts(self) -> (r: (U, M, W))
        ensures
            r == (self.user_data, self.loader, self.writer),
    {
        (self.user_data, self.loader, self.writer)
    }
}

} // verus!
