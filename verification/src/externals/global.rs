//! Globals as the host sees them.

use crate::context::{
    Context, ContextHandle, ContextObjectsView, HandleView, InternalContextHandle,
};
use crate::types::GlobalType;
use crate::vm::{VMExtern, VMGlobal};
use vstd::prelude::*;

verus! {

/// A global of an arena.
#[derive(Debug, Clone, PartialEq, Eq)]
pub struct Global {
    handle: ContextHandle<VMGlobal>,
}

impl View for Global {
    type V = HandleView;

    open spec fn view(&self) -> HandleView {
        self.spec_handle()@
    }
}

impl Global {
    /// The handle of the global.
    pub closed spec fn spec_handle(&self) -> ContextHandle<VMGlobal> {
        self.handle
    }

    /// Two globals with the same arena and slot are the same global.
    pub proof fn lemma_view_determines(a: Self, b: Self)
        requires
            a@ == b@,
        ensures
            a == b,
    {
        ContextHandle::lemma_view_determines(a.handle, b.handle);
    }

    /// Makes a global of the given type in the arena of `ctx`.
    pub fn new<E: ?Sized>(ctx: &mut Context<E>, ty: GlobalType) -> (r: Global)
        ensures
            r@ == (HandleView { id: old(ctx)@.id, slot: old(ctx)@.globals.len() as int }),
            final(ctx)@ == (ContextObjectsView {
                globals: old(ctx)@.globals.push(VMGlobal { ty }),
                ..old(ctx)@
            }),
            final(ctx).spec_store() == old(ctx).spec_store(),
    {
        let objects = ctx.objects_mut();
        Global { handle: ContextHandle::new(objects, VMGlobal { ty }) }
    }

    /// Returns the type of the global.
    pub fn ty<E: ?Sized>(&self, ctx: &Context<E>) -> (r: GlobalType)
        requires
            self@.is_live(ctx@.id, ctx@.globals.len()),
        ensures
            r == ctx@.globals[self@.slot].ty,
    {
        self.handle.get(ctx.objects()).ty
    }

    /// The global in the given slot of the arena of `ctx`.
    pub fn from_vm_extern<E: ?Sized>(
        ctx: &Context<E>,
        internal: InternalContextHandle<VMGlobal>,
    ) -> (r: Global)
        ensures
            r@ == (HandleView { id: ctx@.id, slot: internal.slot() }),
    {
        Global { handle: ContextHandle::from_internal(ctx.objects().id(), internal) }
    }

    /// Returns the global as a module exports it.
    pub fn to_vm_extern(&self) -> (r: VMExtern)
        ensures
            r == VMExtern::Global(self.spec_handle().spec_internal()),
    {
        VMExtern::Global(self.handle.internal_handle())
    }

    /// Whether the global belongs to the arena of `ctx`.
    pub fn is_from_context<E: ?Sized>(&self, ctx: &Context<E>) -> (r: bool)
        ensures
            r == (self@.id == ctx@.id),
    {
        self.handle.context_id() == ctx.objects().id()
    }
}

} // verus!
