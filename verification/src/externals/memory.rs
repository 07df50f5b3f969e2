//! Memories as the host sees them.

use crate::context::{
    Context, ContextHandle, ContextObjectsView, HandleView, InternalContextHandle,
};
use crate::types::MemoryType;
use crate::vm::{VMExtern, VMMemory};
use vstd::prelude::*;

verus! {

/// A linear memory of an arena.
#[derive(Debug, Clone, PartialEq, Eq)]
pub struct Memory {
    handle: ContextHandle<VMMemory>,
}

impl View for Memory {
    type V = HandleView;

    open spec fn view(&self) -> HandleView {
        self.spec_handle()@
    }
}

impl Memory {
    /// The handle of the memory.
    pub closed spec fn spec_handle(&self) -> ContextHandle<VMMemory> {
        self.handle
    }

    /// Two memories with the same arena and slot are the same memory.
    pub proof fn lemma_view_determines(a: Self, b: Self)
        requires
            a@ == b@,
        ensures
            a == b,
    {
        ContextHandle::lemma_view_determines(a.handle, b.handle);
    }

    /// Makes a memory of the given type in the arena of `ctx`.
    pub fn new<E: ?Sized>(ctx: &mut Context<E>, ty: MemoryType) -> (r: Memory)
        ensures
            r@ == (HandleView { id: old(ctx)@.id, slot: old(ctx)@.memories.len() as int }),
            final(ctx)@ == (ContextObjectsView {
                memories: old(ctx)@.memories.push(VMMemory { ty }),
                ..old(ctx)@
            }),
            final(ctx).spec_store() == old(ctx).spec_store(),
    {
        let objects = ctx.objects_mut();
        Memory { handle: ContextHandle::new(objects, VMMemory { ty }) }
    }

    /// Returns the type of the memory.
    pub fn ty<E: ?Sized>(&self, ctx: &Context<E>) -> (r: MemoryType)
        requires
            self@.is_live(ctx@.id, ctx@.memories.len()),
        ensures
            r == ctx@.memories[self@.slot].ty,
    {
        self.handle.get(ctx.objects()).ty
    }

    /// The memory in the given slot of the arena of `ctx`.
    pub fn from_vm_extern<E: ?Sized>(
        ctx: &Context<E>,
        internal: InternalContextHandle<VMMemory>,
    ) -> (r: Memory)
        ensures
            r@ == (HandleView { id: ctx@.id, slot: internal.slot() }),
    {
        Memory { handle: ContextHandle::from_internal(ctx.objects().id(), internal) }
    }

    /// Returns the memory as a module exports it.
    pub fn to_vm_extern(&self) -> (r: VMExtern)
        ensures
            r == VMExtern::Memory(self.spec_handle().spec_internal()),
    {
        VMExtern::Memory(self.handle.internal_handle())
    }

    /// Whether the memory belongs to the arena of `ctx`.
    pub fn is_from_context<E: ?Sized>(&self, ctx: &Context<E>) -> (r: bool)
        ensures
            r == (self@.id == ctx@.id),
    {
        self.handle.context_id() == ctx.objects().id()
    }
}

} // verus!
