//! Functions as the host sees them.

use crate::context::{
    Context, ContextHandle, ContextObjectsView, HandleView, InternalContextHandle,
};
use crate::types::FunctionType;
use crate::vm::{VMExtern, VMFuncRef, VMFunction};
use vstd::prelude::*;

verus! {

/// A function of an arena.
#[derive(Debug, Clone, PartialEq, Eq)]
pub struct Function {
    handle: ContextHandle<VMFunction>,
}

impl View for Function {
    type V = HandleView;

    open spec fn view(&self) -> HandleView {
        self.spec_handle()@
    }
}

impl Function {
    /// The handle of the function.
    pub closed spec fn spec_handle(&self) -> ContextHandle<VMFunction> {
        self.handle
    }

    /// Two functions with the same arena and slot are the same function.
    pub proof fn lemma_view_determines(a: Self, b: Self)
        requires
            a@ == b@,
        ensures
            a == b,
    {
        ContextHandle::lemma_view_determines(a.handle, b.handle);
    }

    /// Makes a function of the given signature in the arena of `ctx`.
    pub fn new<E: ?Sized>(ctx: &mut Context<E>, ty: FunctionType) -> (r: Function)
        ensures
            r@ == (HandleView { id: old(ctx)@.id, slot: old(ctx)@.functions.len() as int }),
            final(ctx)@ == (ContextObjectsView {
                functions: old(ctx)@.functions.push(VMFunction { signature: ty }),
                ..old(ctx)@
            }),
            final(ctx).spec_store() == old(ctx).spec_store(),
    {
        let objects = ctx.objects_mut();
        Function { handle: ContextHandle::new(objects, VMFunction { signature: ty }) }
    }

    /// Returns the signature of the function.
    pub fn ty<E: ?Sized>(&self, ctx: &Context<E>) -> (r: FunctionType)
        requires
            self@.is_live(ctx@.id, ctx@.functions.len()),
        ensures
            r@ == ctx@.functions[self@.slot].signature@,
    {
        self.handle.get(ctx.objects()).signature.clone()
    }

    /// The function in the given slot of the arena of `ctx`.
    pub fn from_vm_extern<E: ?Sized>(
        ctx: &Context<E>,
        internal: InternalContextHandle<VMFunction>,
    ) -> (r: Function)
        ensures
            r@ == (HandleView { id: ctx@.id, slot: internal.slot() }),
    {
        Function { handle: ContextHandle::from_internal(ctx.objects().id(), internal) }
    }

    /// Returns the function as a module exports it.
    pub fn to_vm_extern(&self) -> (r: VMExtern)
        ensures
            r == VMExtern::Function(self.spec_handle().spec_internal()),
    {
        VMExtern::Function(self.handle.internal_handle())
    }

    /// Returns the function as a table stores it.
    pub fn vm_funcref(&self) -> (r: VMFuncRef)
        ensures
            r == VMFuncRef(self.spec_handle().spec_internal()),
    {
        VMFuncRef(self.handle.internal_handle())
    }

    /// The function that a table of the arena of `ctx` stores as `funcref`.
    pub fn from_vm_funcref<E: ?Sized>(ctx: &Context<E>, funcref: VMFuncRef) -> (r: Function)
        ensures
            r@ == (HandleView { id: ctx@.id, slot: funcref.0.slot() }),
    {
        Function { handle: ContextHandle::from_internal(ctx.objects().id(), funcref.0) }
    }

    /// Whether the function belongs to the arena of `ctx`.
    pub fn is_from_context<E: ?Sized>(&self, ctx: &Context<E>) -> (r: bool)
        ensures
            r == (self@.id == ctx@.id),
    {
        self.handle.context_id() == ctx.objects().id()
    }
}

} // verus!
