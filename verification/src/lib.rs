//! The embedding core of a WebAssembly virtual machine.
//!
//! A [`store::Store`] shares one engine. A [`context::Context`] is one
//! session under a store: it owns the arena of all live objects of the
//! session and hands out handles that carry the identity of the arena. The
//! host reaches the objects through wrappers around such handles, among
//! them [`externals::table::Table`], and exchanges them with modules as
//! [`externals::Extern`] values. [`link`] binds the imports of a module and
//! reports how instantiation ended, with the errors of [`error`].
//!
//! Contracts speak of the arena as a mathematical value,
//! [`context::ContextObjectsView`]: every operation says what the arena
//! holds afterwards, and every failure leaves the arena as it was.

pub mod context;
pub mod emscripten;
pub mod error;
pub mod externals;
pub mod import_object;
pub mod link;
pub mod store;
pub mod text;
pub mod tunables;
pub mod types;
pub mod value;
pub mod vm;
