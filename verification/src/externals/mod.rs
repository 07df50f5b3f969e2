//! The entities that a module imports and exports: functions, globals,
//! tables and memories, and the union of the four.

pub mod function;
pub mod global;
pub mod memory;
pub mod table;

use crate::context::{Context, ContextObjectsView, HandleView};
use crate::error::ExportError;
use crate::externals::function::Function;
use crate::externals::global::Global;
use crate::externals::memory::Memory;
use crate::externals::table::Table;
use crate::store::{Store, StoreObject};
use crate::types::{ExternType, ExternTypeView};
use crate::vm::VMExtern;
use vstd::prelude::*;
use vstd::std_specs::convert::FromSpec;
use vstd::string::StringExecFns;

verus! {

/// An extern as a mathematical value: its kind, with the arena and slot of
/// the object.
pub enum ExternView {
    /// A function.
    Function(HandleView),
    /// A global.
    Global(HandleView),
    /// A table.
    Table(HandleView),
    /// A memory.
    Memory(HandleView),
}

impl ExternView {
    /// Whether the arena holds the object of the extern.
    pub open spec fn is_live_in(self, ctx: ContextObjectsView) -> bool {
        match self {
            ExternView::Function(h) => h.is_live(ctx.id, ctx.functions.len()),
            ExternView::Global(h) => h.is_live(ctx.id, ctx.globals.len()),
            ExternView::Table(h) => h.is_live(ctx.id, ctx.tables.len()),
            ExternView::Memory(h) => h.is_live(ctx.id, ctx.memories.len()),
        }
    }

    /// The type of the object of the extern in the arena.
    pub open spec fn ty(self, ctx: ContextObjectsView) -> ExternTypeView {
        match self {
            ExternView::Function(h) => ExternTypeView::Function(ctx.functions[h.slot].signature@),
            ExternView::Global(h) => ExternTypeView::Global(ctx.globals[h.slot].ty),
            ExternView::Table(h) => ExternTypeView::Table(ctx.tables[h.slot].ty),
            ExternView::Memory(h) => ExternTypeView::Memory(ctx.memories[h.slot].ty),
        }
    }

    /// The extern that an export of a module stands for in the arena of
    /// the given identity.
    pub open spec fn from_vm_export(id: crate::context::ContextId, export: VMExtern) -> ExternView {
        match export {
            VMExtern::Function(f) => ExternView::Function(HandleView { id, slot: f.slot() }),
            VMExtern::Memory(m) => ExternView::Memory(HandleView { id, slot: m.slot() }),
            VMExtern::Global(g) => ExternView::Global(HandleView { id, slot: g.slot() }),
            VMExtern::Table(t) => ExternView::Table(HandleView { id, slot: t.slot() }),
        }
    }
}

/// An entity that can be imported or exported: one of the four kinds.
#[derive(Clone, PartialEq, Eq)]
pub enum Extern {
    /// A function.
    Function(Function),
    /// A global.
    Global(Global),
    /// A table.
    Table(Table),
    /// A memory.
    Memory(Memory),
}

impl View for Extern {
    type V = ExternView;

    open spec fn view(&self) -> ExternView {
        match self {
            Extern::Function(f) => ExternView::Function(f@),
            Extern::Global(g) => ExternView::Global(g@),
            Extern::Table(t) => ExternView::Table(t@),
            Extern::Memory(m) => ExternView::Memory(m@),
        }
    }
}

impl Extern {
    /// How the extern is shown: its kind, with the object left out.
    pub open spec fn spec_debug_string(&self) -> Seq<char> {
        match self {
            Extern::Function(_) => "Function(...)"@,
            Extern::Global(_) => "Global(...)"@,
            Extern::Memory(_) => "Memory(...)"@,
            Extern::Table(_) => "Table(...)"@,
        }
    }

    /// Returns the type of the object of the extern.
    pub fn ty<E: ?Sized>(&self, ctx: &Context<E>) -> (r: ExternType)
        requires
            self@.is_live_in(ctx@),
        ensures
            r@ == self@.ty(ctx@),
    {
        match self {
            Extern::Function(ft) => ExternType::Function(ft.ty(ctx)),
            Extern::Memory(ft) => ExternType::Memory(ft.ty(ctx)),
            Extern::Table(tt) => ExternType::Table(tt.ty(ctx)),
            Extern::Global(gt) => ExternType::Global(gt.ty(ctx)),
        }
    }

    /// The extern that an export of a module stands for in the arena of
    /// `ctx`: the object of the same kind in the same slot.
    pub fn from_vm_export<E: ?Sized>(ctx: &Context<E>, export: VMExtern) -> (r: Extern)
        ensures
            r@ == ExternView::from_vm_export(ctx@.id, export),
    {
        match export {
            VMExtern::Function(f) => Extern::Function(Function::from_vm_extern(ctx, f)),
            VMExtern::Memory(m) => Extern::Memory(Memory::from_vm_extern(ctx, m)),
            VMExtern::Global(g) => Extern::Global(Global::from_vm_extern(ctx, g)),
            VMExtern::Table(t) => Extern::Table(Table::from_vm_extern(ctx, t)),
        }
    }

    /// Returns the extern as a module exports it.
    pub fn to_vm_extern(&self) -> (r: VMExtern)
        ensures
            ExternView::from_vm_export(self@.id(), r) == self@,
    {
        match self {
            Extern::Function(f) => f.to_vm_extern(),
            Extern::Global(g) => g.to_vm_extern(),
            Extern::Table(t) => t.to_vm_extern(),
            Extern::Memory(m) => m.to_vm_extern(),
        }
    }

    /// Whether the extern belongs to the arena of `ctx`.
    pub fn is_from_context<E: ?Sized>(&self, ctx: &Context<E>) -> (r: bool)
        ensures
            r == (self@.id() == ctx@.id),
    {
        match self {
            Extern::Function(f) => f.is_from_context(ctx),
            Extern::Global(g) => g.is_from_context(ctx),
            Extern::Table(t) => t.is_from_context(ctx),
            Extern::Memory(m) => m.is_from_context(ctx),
        }
    }

    /// Returns the text that shows the extern: the name of its kind,
    /// followed by `(...)`.
    pub fn debug_string(&self) -> (r: String)
        ensures
            r@ == self.spec_debug_string(),
    {
        String::from_str(
            match self {
                Extern::Function(_) => "Function(...)",
                Extern::Global(_) => "Global(...)",
                Extern::Memory(_) => "Memory(...)",
                Extern::Table(_) => "Table(...)",
            },
        )
    }
}

impl ExternView {
    /// The identity of the arena that the extern belongs to.
    pub open spec fn id(self) -> crate::context::ContextId {
        match self {
            ExternView::Function(h) => h.id,
            ExternView::Global(h) => h.id,
            ExternView::Table(h) => h.id,
            ExternView::Memory(h) => h.id,
        }
    }
}

/// A kind of entity that an extern can be narrowed to.
pub trait Exportable<'a>: Sized {
    /// The object of this kind that the extern holds, if it is of this
    /// kind.
    spec fn spec_from_extern(e: &Extern) -> Option<Self>;

    /// Narrows the extern to this kind: returns the object that it holds,
    /// or the error `IncompatibleType` when the extern is of another kind.
    fn get_self_from_extern(e: &'a Extern) -> (r: Result<&'a Self, ExportError>)
        ensures
            match Self::spec_from_extern(e) {
                Some(x) => r matches Ok(y) && *y == x,
                None => r == Err::<&Self, ExportError>(ExportError::IncompatibleType),
            },
    ;
}

impl<'a> Exportable<'a> for Extern {
    open spec fn spec_from_extern(e: &Extern) -> Option<Extern> {
        Some(*e)
    }

    fn get_self_from_extern(e: &'a Extern) -> (r: Result<&'a Extern, ExportError>) {
        // An extern is an extern already.
        Ok(e)
    }
}

impl<'a> Exportable<'a> for Function {
    open spec fn spec_from_extern(e: &Extern) -> Option<Function> {
        match e {
            Extern::Function(f) => Some(*f),
            _ => None,
        }
    }

    fn get_self_from_extern(e: &'a Extern) -> (r: Result<&'a Function, ExportError>) {
        match e {
            Extern::Function(f) => Ok(f),
            _ => Err(ExportError::IncompatibleType),
        }
    }
}

impl<'a> Exportable<'a> for Global {
    open spec fn spec_from_extern(e: &Extern) -> Option<Global> {
        match e {
            Extern::Global(g) => Some(*g),
            _ => None,
        }
    }

    fn get_self_from_extern(e: &'a Extern) -> (r: Result<&'a Global, ExportError>) {
        match e {
            Extern::Global(g) => Ok(g),
            _ => Err(ExportError::IncompatibleType),
        }
    }
}

impl<'a> Exportable<'a> for Memory {
    open spec fn spec_from_extern(e: &Extern) -> Option<Memory> {
        match e {
            Extern::Memory(m) => Some(*m),
            _ => None,
        }
    }

    fn get_self_from_extern(e: &'a Extern) -> (r: Result<&'a Memory, ExportError>) {
        match e {
            Extern::Memory(m) => Ok(m),
            _ => Err(ExportError::IncompatibleType),
        }
    }
}

impl From<Function> for Extern {
    fn from(r: Function) -> (e: Extern) {
        Extern::Function(r)
    }
}

impl vstd::std_specs::convert::FromSpecImpl<Function> for Extern {
    open spec fn obeys_from_spec() -> bool {
        true
    }

    open spec fn from_spec(r: Function) -> Extern {
        Extern::Function(r)
    }
}

impl From<Global> for Extern {
    fn from(r: Global) -> (e: Extern) {
        Extern::Global(r)
    }
}

impl vstd::std_specs::convert::FromSpecImpl<Global> for Extern {
    open spec fn obeys_from_spec() -> bool {
        true
    }

    open spec fn from_spec(r: Global) -> Extern {
        Extern::Global(r)
    }
}

impl From<Memory> for Extern {
    fn from(r: Memory) -> (e: Extern) {
        Extern::Memory(r)
    }
}

impl vstd::std_specs::convert::FromSpecImpl<Memory> for Extern {
    open spec fn obeys_from_spec() -> bool {
        true
    }

    open spec fn from_spec(r: Memory) -> Extern {
        Extern::Memory(r)
    }
}

impl From<Table> for Extern {
    fn from(r: Table) -> (e: Extern) {
        Extern::Table(r)
    }
}

impl vstd::std_specs::convert::FromSpecImpl<Table> for Extern {
    open spec fn obeys_from_spec() -> bool {
        true
    }

    open spec fn from_spec(r: Table) -> Extern {
        Extern::Table(r)
    }
}

/// An extern made from an object of one kind narrows back to that very
/// object, and to no object of any other kind.
pub proof fn lemma_extern_round_trip(f: Function, g: Global, t: Table, m: Memory)
    ensures
        Function::spec_from_extern(&Extern::from_spec(f)) == Some(f),
        Global::spec_from_extern(&Extern::from_spec(f)) is None,
        Table::spec_from_extern(&Extern::from_spec(f)) is None,
        Memory::spec_from_extern(&Extern::from_spec(f)) is None,
        Global::spec_from_extern(&Extern::from_spec(g)) == Some(g),
        Function::spec_from_extern(&Extern::from_spec(g)) is None,
        Table::spec_from_extern(&Extern::from_spec(g)) is None,
        Memory::spec_from_extern(&Extern::from_spec(g)) is None,
        Table::spec_from_extern(&Extern::from_spec(t)) == Some(t),
        Function::spec_from_extern(&Extern::from_spec(t)) is None,
        Global::spec_from_extern(&Extern::from_spec(t)) is None,
        Memory::spec_from_extern(&Extern::from_spec(t)) is None,
        Memory::spec_from_extern(&Extern::from_spec(m)) == Some(m),
        Function::spec_from_extern(&Extern::from_spec(m)) is None,
        Global::spec_from_extern(&Extern::from_spec(m)) is None,
        Table::spec_from_extern(&Extern::from_spec(m)) is None,
        Extern::spec_from_extern(&Extern::from_spec(t)) == Some(Extern::from_spec(t)),
{
}

impl<E: ?Sized> StoreObject<E> for Context<E> {
    fn comes_from_same_store(&self, store: &Store<E>) -> (r: bool)
        ensures
            r ==> self.spec_store()@ == store@,
    {
        Store::same(self.store(), store)
    }
}

} // verus!
