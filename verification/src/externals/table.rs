//! Tables as the host sees them.
//!
//! A table is an array of references that the host and the modules of one
//! arena read and write. Every operation names the arena; a table, and a
//! value that is written to it, must belong to that arena.

use crate::context::{
    Context, ContextHandle, ContextId, ContextObjectsView, HandleView, InternalContextHandle,
};
use crate::error::{ExportError, RuntimeError, RuntimeErrorView, TrapCode};
use crate::externals::function::Function;
use crate::externals::{Exportable, Extern};
use crate::text::{decimal, u32_to_string};
use crate::types::{TableStyle, TableType};
use crate::value::{ExternRef, Value, ValueView};
use crate::vm::{TableElement, VMExtern, VMExternRef, VMFuncRef, VMTable, VMTableView};
use vstd::prelude::*;
use vstd::string::StringExecFns;

verus! {

/// A table of an arena.
#[derive(Debug, Clone, PartialEq, Eq)]
pub struct Table {
    handle: ContextHandle<VMTable>,
}

impl View for Table {
    type V = HandleView;

    open spec fn view(&self) -> HandleView {
        self.spec_handle()@
    }
}

/// The element that a table of the arena `id` stores for a value, or the
/// error that refuses the value: a reference into another arena cannot be
/// passed, and a number is no reference.
pub open spec fn spec_value_to_table_element(id: ContextId, val: Value) -> Result<
    TableElement,
    RuntimeErrorView,
> {
    if !val@.is_from_context(id) {
        Err(RuntimeErrorView::Generic("cannot pass Value across contexts"@))
    } else {
        match val {
            Value::ExternRef(None) => Ok(TableElement::ExternRef(None)),
            Value::ExternRef(Some(e)) => Ok(
                TableElement::ExternRef(Some(VMExternRef(e.spec_handle().spec_internal()))),
            ),
            Value::FuncRef(None) => Ok(TableElement::FuncRef(None)),
            Value::FuncRef(Some(f)) => Ok(
                TableElement::FuncRef(Some(VMFuncRef(f.spec_handle().spec_internal()))),
            ),
            _ => Err(RuntimeErrorView::Generic("val is not reference"@)),
        }
    }
}

/// The value that an element of a table of the arena `id` stands for.
pub open spec fn spec_value_from_table_element(id: ContextId, item: TableElement) -> ValueView {
    match item {
        TableElement::FuncRef(None) => ValueView::FuncRef(None),
        TableElement::FuncRef(Some(f)) => ValueView::FuncRef(
            Some(HandleView { id, slot: f.0.slot() }),
        ),
        TableElement::ExternRef(None) => ValueView::ExternRef(None),
        TableElement::ExternRef(Some(e)) => ValueView::ExternRef(
            Some(HandleView { id, slot: e.0.slot() }),
        ),
    }
}

/// Writes an element to the storage of a table, and reports a fault of the
/// storage as a runtime error.
pub fn set_table_item(table: &mut VMTable, item_index: u32, item: TableElement) -> (r: Result<
    (),
    RuntimeError,
>)
    requires
        old(table)@.wf(),
    ensures
        final(table)@.wf(),
        match old(table)@.set_fault(item_index, item) {
            Some(trap) => r matches Err(e) && e@ == RuntimeError::spec_from_trap(trap)
                && final(table)@ == old(table)@,
            None => r is Ok && final(table)@ == old(table)@.with_elements(
                old(table)@.elements.update(item_index as int, item),
            ),
        },
{
    match table.set(item_index, item) {
        Ok(()) => Ok(()),
        Err(trap) => Err(RuntimeError::from_trap(trap)),
    }
}

/// Turns a value into the element that a table of the arena of `ctx`
/// stores for it: see [`spec_value_to_table_element`].
pub fn value_to_table_element<E: ?Sized>(ctx: &Context<E>, val: Value) -> (r: Result<
    TableElement,
    RuntimeError,
>)
    ensures
        match spec_value_to_table_element(ctx@.id, val) {
            Ok(item) => r == Ok::<TableElement, RuntimeError>(item),
            Err(e) => r matches Err(err) && err@ == e,
        },
{
    if !val.is_from_context(ctx) {
        return Err(RuntimeError::new("cannot pass Value across contexts"));
    }
    match val {
        Value::ExternRef(extern_ref) => Ok(
            TableElement::ExternRef(
                match extern_ref {
                    Some(e) => Some(e.vm_externref()),
                    None => None,
                },
            ),
        ),
        Value::FuncRef(func_ref) => Ok(
            TableElement::FuncRef(
                match func_ref {
                    Some(f) => Some(f.vm_funcref()),
                    None => None,
                },
            ),
        ),
        _ => Err(RuntimeError::new("val is not reference")),
    }
}

/// Turns an element of a table of the arena of `ctx` into the value that
/// it stands for: see [`spec_value_from_table_element`].
pub fn value_from_table_element<E: ?Sized>(ctx: &Context<E>, item: TableElement) -> (r: Value)
    ensures
        r@ == spec_value_from_table_element(ctx@.id, item),
{
    match item {
        TableElement::FuncRef(funcref) => Value::FuncRef(
            match funcref {
                Some(f) => Some(Function::from_vm_funcref(ctx, f)),
                None => None,
            },
        ),
        TableElement::ExternRef(extern_ref) => Value::ExternRef(
            match extern_ref {
                Some(e) => Some(ExternRef::from_vm_externref(ctx, e)),
                None => None,
            },
        ),
    }
}

impl Table {
    /// The handle of the table.
    pub closed spec fn spec_handle(&self) -> ContextHandle<VMTable> {
        self.handle
    }

    /// Two tables with the same arena and slot are the same table.
    pub proof fn lemma_view_determines(a: Self, b: Self)
        requires
            a@ == b@,
        ensures
            a == b,
    {
        ContextHandle::lemma_view_determines(a.handle, b.handle);
    }

    /// Whether the table belongs to the arena and its slot is in use there.
    pub open spec fn is_live_in(&self, ctx: ContextObjectsView) -> bool {
        self@.is_live(ctx.id, ctx.tables.len())
    }

    /// The storage of the table in the arena.
    pub open spec fn spec_table(&self, ctx: ContextObjectsView) -> VMTableView {
        ctx.tables[self@.slot]
    }

    /// What creating a table of type `ty` filled with `init` comes to in an
    /// arena: the new storage, or the error. The value must be a reference
    /// of the arena, storage must be allocatable for the type, and where
    /// there are elements to fill, the value must be of their kind.
    pub open spec fn spec_new(ctx: ContextObjectsView, ty: TableType, init: Value) -> Result<
        VMTableView,
        RuntimeErrorView,
    > {
        match spec_value_to_table_element(ctx.id, init) {
            Err(e) => Err(e),
            Ok(item) => if !ty.allocatable() {
                Err(RuntimeErrorView::Generic(VMTable::spec_new_error(ty)))
            } else if ty.minimum > 0 && item.spec_ty() != ty.ty {
                Err(RuntimeErrorView::Trap(TrapCode::BadSignature))
            } else {
                Ok(
                    VMTableView {
                        elements: Seq::new(ty.minimum as nat, |i: int| item),
                        ty,
                        style: TableStyle::CallerChecksSignature,
                    },
                )
            },
        }
    }

    /// What reading the element at `index` of a table comes to: no value
    /// when the index is out of bounds.
    pub open spec fn spec_get(id: ContextId, table: VMTableView, index: u32) -> Option<ValueView> {
        if index < table.elements.len() {
            Some(spec_value_from_table_element(id, table.elements[index as int]))
        } else {
            None
        }
    }

    /// What writing `val` at `index` of a table comes to: the storage after
    /// the write, or the error.
    pub open spec fn spec_set(id: ContextId, table: VMTableView, index: u32, val: Value) -> Result<
        VMTableView,
        RuntimeErrorView,
    > {
        match spec_value_to_table_element(id, val) {
            Err(e) => Err(e),
            Ok(item) => match table.set_fault(index, item) {
                Some(trap) => Err(RuntimeError::spec_from_trap(trap)),
                None => Ok(table.with_elements(table.elements.update(index as int, item))),
            },
        }
    }

    /// The message of the error that refuses to grow a table by `delta`.
    pub open spec fn spec_grow_error(delta: u32) -> Seq<char> {
        "failed to grow table by `"@ + decimal(delta as nat) + "`"@
    }

    /// What growing a table by `delta` elements equal to `init` comes to:
    /// the storage after growing, or the error.
    pub open spec fn spec_grow(id: ContextId, table: VMTableView, delta: u32, init: Value) -> Result<
        VMTableView,
        RuntimeErrorView,
    > {
        match spec_value_to_table_element(id, init) {
            Err(e) => Err(e),
            Ok(item) => if table.can_grow(delta, item) {
                Ok(table.grown(delta, item))
            } else {
                Err(RuntimeErrorView::Generic(Self::spec_grow_error(delta)))
            },
        }
    }

    /// What copying `len` elements from the table `src` at `src_index` to
    /// the table `dst` at `dst_index` comes to: the arena after the copy,
    /// or the error. Tables of different arenas are refused. The elements
    /// that arrive are those that the source range held before the copy,
    /// also where `src` and `dst` are one table and the ranges overlap.
    pub open spec fn spec_copy(
        ctx: ContextObjectsView,
        dst: HandleView,
        dst_index: u32,
        src: HandleView,
        src_index: u32,
        len: u32,
    ) -> Result<ContextObjectsView, RuntimeErrorView> {
        if dst.id != src.id {
            Err(RuntimeErrorView::Generic("cross-`Context` table copies are not supported"@))
        } else {
            let into = ctx.tables[dst.slot];
            let from = ctx.tables[src.slot];
            match into.copy_fault(from, dst_index, src_index, len) {
                Some(trap) => Err(RuntimeError::spec_from_trap(trap)),
                None => Ok(ctx.with_table(dst.slot, into.copied(from, dst_index, src_index, len))),
            }
        }
    }

    /// Creates a table of type `ty` in the arena of `ctx`, with every
    /// element set to `init`. On an error the arena is as it was.
    pub fn new<E: ?Sized>(ctx: &mut Context<E>, ty: TableType, init: Value) -> (r: Result<
        Table,
        RuntimeError,
    >)
        ensures
            match Self::spec_new(old(ctx)@, ty, init) {
                Ok(table) => r matches Ok(t) && t@ == (HandleView {
                    id: old(ctx)@.id,
                    slot: old(ctx)@.tables.len() as int,
                }) && final(ctx)@ == old(ctx)@.with_new_table(table) && table.wf(),
                Err(e) => r matches Err(err) && err@ == e && final(ctx)@ == old(ctx)@,
            },
            old(ctx)@.wf() ==> final(ctx)@.wf(),
            final(ctx).spec_store() == old(ctx).spec_store(),
    {
        let item = match value_to_table_element(ctx, init) {
            Ok(item) => item,
            Err(e) => {
                return Err(e);
            },
        };
        let style = ctx.store().tunables().table_style(&ty);
        let mut table = match ctx.store().tunables().create_host_table(&ty, &style) {
            Ok(table) => table,
            Err(msg) => {
                return Err(RuntimeError::new(msg.as_str()));
            },
        };
        let num_elements = table.size();
        let mut i: u32 = 0;
        while i < num_elements
            invariant
                i <= num_elements,
                num_elements == ty.minimum,
                *ctx == *old(ctx),
                spec_value_to_table_element(ctx@.id, init) == Ok::<TableElement, RuntimeErrorView>(
                    item,
                ),
                ty.allocatable(),
                table@.wf(),
                table@.ty == ty,
                table@.style == style,
                table@.elements.len() == num_elements,
                i > 0 ==> item.spec_ty() == ty.ty,
                forall|j: int| 0 <= j < i ==> table@.elements[j] == item,
            decreases num_elements - i,
        {
            match set_table_item(&mut table, i, item) {
                Ok(()) => {},
                Err(e) => {
                    return Err(e);
                },
            }
            i += 1;
        }
        let ghost filled = table@;
        assert(filled =~= Self::spec_new(ctx@, ty, init)->Ok_0);
        let ghost before = ctx.spec_objects();
        let objects = ctx.objects_mut();
        let handle = ContextHandle::new(objects, table);
        proof {
            let after = ctx.spec_objects();
            assert(after@.tables =~= before@.tables.push(filled));
            assert(after@ =~= before@.with_new_table(filled));
        }
        Ok(Table { handle })
    }

    /// Returns the declared type of the table.
    pub fn ty<E: ?Sized>(&self, ctx: &Context<E>) -> (r: TableType)
        requires
            self.is_live_in(ctx@),
        ensures
            r == self.spec_table(ctx@).ty,
    {
        *self.handle.get(ctx.objects()).ty()
    }

    /// Returns the value of the element at `index`, or `None` when the
    /// index is out of bounds.
    pub fn get<E: ?Sized>(&self, ctx: &Context<E>, index: u32) -> (r: Option<Value>)
        requires
            self.is_live_in(ctx@),
        ensures
            match Self::spec_get(ctx@.id, self.spec_table(ctx@), index) {
                Some(v) => r matches Some(val) && val@ == v,
                None => r is None,
            },
    {
        match self.handle.get(ctx.objects()).get(index) {
            Some(item) => Some(value_from_table_element(ctx, item)),
            None => None,
        }
    }

    /// Writes `val` to the element at `index`. On an error the arena is as
    /// it was.
    pub fn set<E: ?Sized>(&self, ctx: &mut Context<E>, index: u32, val: Value) -> (r: Result<
        (),
        RuntimeError,
    >)
        requires
            self.is_live_in(old(ctx)@),
            old(ctx)@.wf(),
        ensures
            match Self::spec_set(old(ctx)@.id, self.spec_table(old(ctx)@), index, val) {
                Ok(table) => r is Ok && final(ctx)@ == old(ctx)@.with_table(self@.slot, table),
                Err(e) => r matches Err(err) && err@ == e && final(ctx)@ == old(ctx)@,
            },
            final(ctx)@.wf(),
            final(ctx).spec_store() == old(ctx).spec_store(),
    {
        let item = match value_to_table_element(ctx, val) {
            Ok(item) => item,
            Err(e) => {
                return Err(e);
            },
        };
        let ghost before = ctx.spec_objects();
        let objects = ctx.objects_mut();
        let table = self.handle.get_mut(objects);
        let r = set_table_item(table, index, item);
        proof {
            let after = ctx.spec_objects();
            let written = after.spec_tables()[self@.slot]@;
            assert(after@ =~= before@.with_table(self@.slot, written));
            if r is Err {
                assert(after@ =~= before@);
            }
        }
        r
    }

    /// Returns the number of elements of the table.
    pub fn size<E: ?Sized>(&self, ctx: &Context<E>) -> (r: u32)
        requires
            self.is_live_in(ctx@),
            ctx@.wf(),
        ensures
            r == self.spec_table(ctx@).elements.len(),
    {
        self.handle.get(ctx.objects()).size()
    }

    /// Grows the table by `delta` elements with the value `init`, and
    /// returns the number of elements before. The table grows by all of
    /// `delta` or not at all: on an error the arena is as it was.
    pub fn grow<E: ?Sized>(&self, ctx: &mut Context<E>, delta: u32, init: Value) -> (r: Result<
        u32,
        RuntimeError,
    >)
        requires
            self.is_live_in(old(ctx)@),
            old(ctx)@.wf(),
        ensures
            match Self::spec_grow(old(ctx)@.id, self.spec_table(old(ctx)@), delta, init) {
                Ok(table) => r == Ok::<u32, RuntimeError>(
                    self.spec_table(old(ctx)@).elements.len() as u32,
                ) && final(ctx)@ == old(ctx)@.with_table(self@.slot, table),
                Err(e) => r matches Err(err) && err@ == e && final(ctx)@ == old(ctx)@,
            },
            final(ctx)@.wf(),
            final(ctx).spec_store() == old(ctx).spec_store(),
    {
        let item = match value_to_table_element(ctx, init) {
            Ok(item) => item,
            Err(e) => {
                return Err(e);
            },
        };
        let ghost before = ctx.spec_objects();
        let objects = ctx.objects_mut();
        let table = self.handle.get_mut(objects);
        let grown = table.grow(delta, item);
        proof {
            let after = ctx.spec_objects();
            let written = after.spec_tables()[self@.slot]@;
            assert(after@ =~= before@.with_table(self@.slot, written));
            if grown is None {
                assert(after@ =~= before@);
            }
        }
        match grown {
            Some(previous) => Ok(previous),
            None => {
                let mut msg = String::from_str("failed to grow table by `");
                msg.append(u32_to_string(delta).as_str());
                msg.append("`");
                Err(RuntimeError::new(msg.as_str()))
            },
        }
    }

    /// Copies `len` elements of `src_table` from `src_index` on to
    /// `dst_table` from `dst_index` on. Both tables must belong to one
    /// arena. They may be the same table, and the ranges may overlap. On
    /// an error the arena is as it was.
    pub fn copy<E: ?Sized>(
        ctx: &mut Context<E>,
        dst_table: &Table,
        dst_index: u32,
        src_table: &Table,
        src_index: u32,
        len: u32,
    ) -> (r: Result<(), RuntimeError>)
        requires
            dst_table@.id == src_table@.id ==> dst_table.is_live_in(old(ctx)@)
                && src_table.is_live_in(old(ctx)@),
            old(ctx)@.wf(),
        ensures
            match Self::spec_copy(
                old(ctx)@,
                dst_table@,
                dst_index,
                src_table@,
                src_index,
                len,
            ) {
                Ok(after) => r is Ok && final(ctx)@ == after,
                Err(e) => r matches Err(err) && err@ == e && final(ctx)@ == old(ctx)@,
            },
            final(ctx)@.wf(),
            final(ctx).spec_store() == old(ctx).spec_store(),
    {
        if dst_table.handle.context_id() != src_table.handle.context_id() {
            return Err(RuntimeError::new("cross-`Context` table copies are not supported"));
        }
        let ghost before = ctx.spec_objects();
        let objects = ctx.objects_mut();
        let copied = if dst_table.handle.internal_handle() == src_table.handle.internal_handle() {
            let table = dst_table.handle.get_mut(objects);
            table.copy_within(dst_index, src_index, len)
        } else {
            let (src, dst) = objects.get_2_mut(
                src_table.handle.internal_handle(),
                dst_table.handle.internal_handle(),
            );
            dst.copy(src, dst_index, src_index, len)
        };
        proof {
            let after = ctx.spec_objects();
            let written = after.spec_tables()[dst_table@.slot]@;
            assert(after@ =~= before@.with_table(dst_table@.slot, written));
            if copied is Err {
                assert(after@ =~= before@);
            }
        }
        match copied {
            Ok(()) => Ok(()),
            Err(trap) => Err(RuntimeError::from_trap(trap)),
        }
    }

    /// The table in the given slot of the arena of `ctx`.
    pub fn from_vm_extern<E: ?Sized>(
        ctx: &Context<E>,
        internal: InternalContextHandle<VMTable>,
    ) -> (r: Table)
        ensures
            r@ == (HandleView { id: ctx@.id, slot: internal.slot() }),
    {
        Table { handle: ContextHandle::from_internal(ctx.objects().id(), internal) }
    }

    /// Whether the table can be used with the arena of `ctx`.
    pub fn is_from_context<E: ?Sized>(&self, ctx: &Context<E>) -> (r: bool)
        ensures
            r == (self@.id == ctx@.id),
    {
        self.handle.context_id() == ctx.objects().id()
    }

    /// Returns the table as a module exports it.
    pub fn to_vm_extern(&self) -> (r: VMExtern)
        ensures
            r == VMExtern::Table(self.spec_handle().spec_internal()),
    {
        VMExtern::Table(self.handle.internal_handle())
    }
}

/// What belongs to one arena is refused in another, before anything is
/// written: a copy between tables of different arenas, and a value that
/// refers into another arena, whether it is to be set, to fill new slots
/// or to fill a new table.
pub proof fn lemma_other_arena_refused(
    ctx: ContextObjectsView,
    dst: HandleView,
    dst_index: u32,
    src: HandleView,
    src_index: u32,
    len: u32,
    table: VMTableView,
    ty: TableType,
    val: Value,
)
    ensures
        dst.id != src.id ==> Table::spec_copy(ctx, dst, dst_index, src, src_index, len) == Err::<
            ContextObjectsView,
            RuntimeErrorView,
        >(RuntimeErrorView::Generic("cross-`Context` table copies are not supported"@)),
        !val@.is_from_context(ctx.id) ==> {
            &&& Table::spec_set(ctx.id, table, dst_index, val) == Err::<
                VMTableView,
                RuntimeErrorView,
            >(RuntimeErrorView::Generic("cannot pass Value across contexts"@))
            &&& Table::spec_grow(ctx.id, table, len, val) == Err::<VMTableView, RuntimeErrorView>(
                RuntimeErrorView::Generic("cannot pass Value across contexts"@),
            )
            &&& Table::spec_new(ctx, ty, val) == Err::<VMTableView, RuntimeErrorView>(
                RuntimeErrorView::Generic("cannot pass Value across contexts"@),
            )
        },
{
}

/// Beyond the last element nothing is read and nothing is written: a read
/// gives no value, and a write of a reference of the arena fails with the
/// trap of an access out of bounds.
pub proof fn lemma_out_of_range(id: ContextId, table: VMTableView, index: u32, val: Value)
    requires
        index >= table.elements.len(),
    ensures
        Table::spec_get(id, table, index) is None,
        Table::spec_set(id, table, index, val) is Err,
        spec_value_to_table_element(id, val) is Ok ==> Table::spec_set(id, table, index, val)
            == Err::<VMTableView, RuntimeErrorView>(
            RuntimeErrorView::Trap(TrapCode::TableAccessOutOfBounds),
        ),
{
}

/// Growing a table through its handle grows it by all of `delta` or not at
/// all: with a reference of the arena that is of the kind of the table,
/// it succeeds exactly when the new length stays within the limit.
pub proof fn lemma_grow_within_limit(id: ContextId, table: VMTableView, delta: u32, init: Value)
    requires
        table.wf(),
        spec_value_to_table_element(id, init) matches Ok(item) && item.spec_ty() == table.ty.ty,
    ensures
        table.elements.len() + delta > table.limit() ==> Table::spec_grow(id, table, delta, init)
            == Err::<VMTableView, RuntimeErrorView>(
            RuntimeErrorView::Generic(Table::spec_grow_error(delta)),
        ),
        table.elements.len() + delta <= table.limit() ==> Table::spec_grow(
            id,
            table,
            delta,
            init,
        ) == Ok::<VMTableView, RuntimeErrorView>(
            table.grown(delta, spec_value_to_table_element(id, init)->Ok_0),
        ),
{
}

impl<'a> Exportable<'a> for Table {
    open spec fn spec_from_extern(e: &Extern) -> Option<Table> {
        match e {
            Extern::Table(table) => Some(*table),
            _ => None,
        }
    }

    fn get_self_from_extern(e: &'a Extern) -> (r: Result<&'a Table, ExportError>) {
        match e {
            Extern::Table(table) => Ok(table),
            _ => Err(ExportError::IncompatibleType),
        }
    }
}

} // verus!
