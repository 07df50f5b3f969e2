//! The store: the shared handle to the engine that a session runs on.

use crate::tunables::BaseTunables;
use std::sync::Arc;
use vstd::prelude::*;

verus! {

/// Whether two shared pointers point to the same allocation. Stands for
/// `Arc::ptr_eq` of the standard library: pointers to one allocation hold
/// one value, so a true result implies equal contents. Equal contents in
/// two allocations give false, so nothing more is claimed.
#[verifier::external_body]
fn arc_ptr_eq<E: ?Sized>(a: &Arc<E>, b: &Arc<E>) -> (r: bool)
    ensures
        r ==> *a == *b,
{
    Arc::ptr_eq(a, b)
}

/// Another pointer to the same allocation. Stands for `Arc::clone` of the
/// standard library, which shares the allocation and copies no contents.
#[verifier::external_body]
fn arc_clone<E: ?Sized>(a: &Arc<E>) -> (r: Arc<E>)
    ensures
        r == *a,
{
    Arc::clone(a)
}

/// A store holds a shared engine. Everything that is made under a store
/// runs on that engine.
pub struct Store<E: ?Sized> {
    engine: Arc<E>,
    tunables: BaseTunables,
}

impl<E: ?Sized> View for Store<E> {
    type V = Arc<E>;

    closed spec fn view(&self) -> Arc<E> {
        self.engine
    }
}

impl<E: ?Sized> Store<E> {
    /// A store around the given engine.
    pub fn new(engine: Arc<E>) -> (r: Store<E>)
        ensures
            r@ == engine,
    {
        Store { engine, tunables: BaseTunables::new() }
    }

    /// Returns the engine of the store.
    pub fn engine(&self) -> (r: &Arc<E>)
        ensures
            *r == self@,
    {
        &self.engine
    }

    /// Returns the allocation policy of the store.
    pub fn tunables(&self) -> (r: &BaseTunables)
        ensures
            *r == (BaseTunables {  }),
    {
        &self.tunables
    }

    /// Whether the two stores share one engine: the very same instance,
    /// not merely equal ones. Stores that are the same hold equal engines.
    pub fn same(a: &Store<E>, b: &Store<E>) -> (r: bool)
        ensures
            r ==> a@ == b@,
    {
        arc_ptr_eq(&a.engine, &b.engine)
    }
}

impl<E: ?Sized> Clone for Store<E> {
    /// Another store on the same engine.
    fn clone(&self) -> (r: Self)
        ensures
            r@ == self@,
    {
        Store { engine: arc_clone(&self.engine), tunables: BaseTunables::new() }
    }
}

impl<E: ?Sized> PartialEq for Store<E> {
    /// Stores are equal when they are the same: see [`Store::same`].
    fn eq(&self, other: &Self) -> (r: bool) {
        Store::same(self, other)
    }
}

impl<E: ?Sized> vstd::std_specs::cmp::PartialEqSpecImpl for Store<E> {
    /// Equality of stores is identity of the engine, which is no function
    /// of the values: `==` is bound to no specification.
    open spec fn obeys_eq_spec() -> bool {
        false
    }

    open spec fn eq_spec(&self, other: &Self) -> bool {
        self@ == other@
    }
}

/// Something that was made under a store.
pub trait StoreObject<E: ?Sized> {
    /// Whether the object was made under the given store.
    fn comes_from_same_store(&self, store: &Store<E>) -> bool;
}

} // verus!
