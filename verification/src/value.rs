//! The values that the host and a module exchange.

use crate::context::{Context, ContextHandle, ContextId, ContextObjectsView, HandleView};
use crate::types::Type;
use crate::vm::{VMExternObj, VMExternRef};
use crate::externals::function::Function;
use vstd::prelude::*;

verus! {

/// A reference to an object of the host that a module can hold.
#[derive(Debug, Clone, PartialEq, Eq)]
pub struct ExternRef {
    handle: ContextHandle<VMExternObj>,
}

impl View for ExternRef {
    type V = HandleView;

    open spec fn view(&self) -> HandleView {
        self.spec_handle()@
    }
}

impl ExternRef {
    /// The handle of the host object.
    pub closed spec fn spec_handle(&self) -> ContextHandle<VMExternObj> {
        self.handle
    }

    /// Two references with the same arena and slot are the same reference.
    pub proof fn lemma_view_determines(a: Self, b: Self)
        requires
            a@ == b@,
        ensures
            a == b,
    {
        ContextHandle::lemma_view_determines(a.handle, b.handle);
    }

    /// Moves the word of the host into the arena and returns a reference
    /// to it.
    pub fn new<E: ?Sized>(ctx: &mut Context<E>, contents: u64) -> (r: ExternRef)
        ensures
            r@ == (HandleView { id: old(ctx)@.id, slot: old(ctx)@.extern_objs.len() as int }),
            final(ctx)@ == (ContextObjectsView {
                extern_objs: old(ctx)@.extern_objs.push(VMExternObj { contents }),
                ..old(ctx)@
            }),
            final(ctx).spec_store() == old(ctx).spec_store(),
    {
        let objects = ctx.objects_mut();
        ExternRef { handle: ContextHandle::new(objects, VMExternObj { contents }) }
    }

    /// Returns the word that the host gave for the object.
    pub fn contents<E: ?Sized>(&self, ctx: &Context<E>) -> (r: u64)
        requires
            self@.is_live(ctx@.id, ctx@.extern_objs.len()),
        ensures
            r == ctx@.extern_objs[self@.slot].contents,
    {
        self.handle.get(ctx.objects()).contents
    }

    /// Returns the reference as a table stores it.
    pub fn vm_externref(&self) -> (r: VMExternRef)
        ensures
            r == VMExternRef(self.spec_handle().spec_internal()),
    {
        VMExternRef(self.handle.internal_handle())
    }

    /// The reference that a table of the arena of `ctx` stores as
    /// `vm_externref`.
    pub fn from_vm_externref<E: ?Sized>(ctx: &Context<E>, vm_externref: VMExternRef) -> (r:
        ExternRef)
        ensures
            r@ == (HandleView { id: ctx@.id, slot: vm_externref.0.slot() }),
    {
        ExternRef { handle: ContextHandle::from_internal(ctx.objects().id(), vm_externref.0) }
    }

    /// Whether the reference belongs to the arena of `ctx`.
    pub fn is_from_context<E: ?Sized>(&self, ctx: &Context<E>) -> (r: bool)
        ensures
            r == (self@.id == ctx@.id),
    {
        self.handle.context_id() == ctx.objects().id()
    }
}

/// A value as a mathematical value: references by arena and slot.
pub enum ValueView {
    /// A 32 bit integer.
    I32(i32),
    /// A 64 bit integer.
    I64(i64),
    /// The bits of a 32 bit float.
    F32(u32),
    /// The bits of a 64 bit float.
    F64(u64),
    /// A 128 bit number.
    V128(u128),
    /// An external reference, or null.
    ExternRef(Option<HandleView>),
    /// A function reference, or null.
    FuncRef(Option<HandleView>),
}

/// A value of WebAssembly.
#[derive(Debug, Clone, PartialEq, Eq)]
pub enum Value {
    /// A 32 bit integer.
    I32(i32),
    /// A 64 bit integer.
    I64(i64),
    /// A 32 bit float, held as its bits.
    F32(u32),
    /// A 64 bit float, held as its bits.
    F64(u64),
    /// A 128 bit number.
    V128(u128),
    /// An external reference, or null.
    ExternRef(Option<ExternRef>),
    /// A function reference, or null.
    FuncRef(Option<Function>),
}

impl View for Value {
    type V = ValueView;

    open spec fn view(&self) -> ValueView {
        match self {
            Value::I32(v) => ValueView::I32(*v),
            Value::I64(v) => ValueView::I64(*v),
            Value::F32(v) => ValueView::F32(*v),
            Value::F64(v) => ValueView::F64(*v),
            Value::V128(v) => ValueView::V128(*v),
            Value::ExternRef(None) => ValueView::ExternRef(None),
            Value::ExternRef(Some(e)) => ValueView::ExternRef(Some(e@)),
            Value::FuncRef(None) => ValueView::FuncRef(None),
            Value::FuncRef(Some(f)) => ValueView::FuncRef(Some(f@)),
        }
    }
}

impl ValueView {
    /// The type of the value.
    pub open spec fn ty(self) -> Type {
        match self {
            ValueView::I32(_) => Type::I32,
            ValueView::I64(_) => Type::I64,
            ValueView::F32(_) => Type::F32,
            ValueView::F64(_) => Type::F64,
            ValueView::V128(_) => Type::V128,
            ValueView::ExternRef(_) => Type::ExternRef,
            ValueView::FuncRef(_) => Type::FuncRef,
        }
    }

    /// Whether the value can be used with the arena of the given identity:
    /// it is a number or a null reference, or a reference into that arena.
    pub open spec fn is_from_context(self, id: ContextId) -> bool {
        match self {
            ValueView::ExternRef(Some(h)) => h.id == id,
            ValueView::FuncRef(Some(h)) => h.id == id,
            _ => true,
        }
    }
}

impl Value {
    /// Two values that are the same as mathematical values are the same
    /// value: a reference is determined by its arena and its slot.
    pub proof fn lemma_view_determines(a: Value, b: Value)
        requires
            a@ == b@,
        ensures
            a == b,
    {
        match (a, b) {
            (Value::ExternRef(Some(x)), Value::ExternRef(Some(y))) => {
                ExternRef::lemma_view_determines(x, y);
            },
            (Value::FuncRef(Some(x)), Value::FuncRef(Some(y))) => {
                Function::lemma_view_determines(x, y);
            },
            _ => {},
        }
    }

    /// Returns the type of the value.
    pub fn ty(&self) -> (r: Type)
        ensures
            r == self@.ty(),
    {
        match self {
            Value::I32(_) => Type::I32,
            Value::I64(_) => Type::I64,
            Value::F32(_) => Type::F32,
            Value::F64(_) => Type::F64,
            Value::V128(_) => Type::V128,
            Value::ExternRef(_) => Type::ExternRef,
            Value::FuncRef(_) => Type::FuncRef,
        }
    }

    /// Whether the value can be used with the arena of `ctx`.
    pub fn is_from_context<E: ?Sized>(&self, ctx: &Context<E>) -> (r: bool)
        ensures
            r == self@.is_from_context(ctx@.id),
    {
        match self {
            Value::ExternRef(Some(e)) => e.is_from_context(ctx),
            Value::FuncRef(Some(f)) => f.is_from_context(ctx),
            _ => true,
        }
    }
}

} // verus!
