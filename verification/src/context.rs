//! The arena that owns the live objects of one session, and the handles by
//! which they are reached.
//!
//! Every handle carries the identity of the arena that it was made in. An
//! object is reached only through a handle whose identity is that of the
//! arena at hand.

use crate::store::Store;
use crate::vm::{VMExternObj, VMFunction, VMGlobal, VMMemory, VMTable, VMTableView};
use std::marker::PhantomData;
use vstd::prelude::*;

verus! {

/// The identity of an arena.
#[derive(Copy, Clone, Debug, PartialEq, Eq, Hash, Structural)]
pub struct ContextId(u64);

/// A source of arena identities that hands out each identity once.
#[derive(Debug)]
pub struct ContextIds {
    next: u64,
}

impl ContextIds {
    /// Whether the source has handed out the identity.
    pub closed spec fn issued(&self, id: ContextId) -> bool {
        id.0 < self.next
    }

    /// The number of identities that the source can still hand out.
    pub closed spec fn remaining(&self) -> nat {
        (u64::MAX - self.next) as nat
    }

    /// A source that has handed out nothing yet.
    pub fn new() -> (r: ContextIds)
        ensures
            forall|id: ContextId| !r.issued(id),
            r.remaining() == u64::MAX,
    {
        ContextIds { next: 0 }
    }

    /// Hands out an identity that this source has not handed out before,
    /// or `None` when none is left.
    pub fn fresh(&mut self) -> (r: Option<ContextId>)
        ensures
            match r {
                Some(id) => {
                    &&& old(self).remaining() > 0
                    &&& final(self).remaining() == old(self).remaining() - 1
                    &&& !old(self).issued(id)
                    &&& forall|other: ContextId|
                        final(self).issued(other) <==> old(self).issued(other) || other == id
                },
                None => old(self).remaining() == 0 && *final(self) == *old(self),
            },
    {
        if self.next == u64::MAX {
            return None;
        }
        let id = ContextId(self.next);
        self.next = self.next + 1;
        Some(id)
    }
}

/// What an arena holds, as a mathematical value.
#[verifier::ext_equal]
pub struct ContextObjectsView {
    /// The identity of the arena.
    pub id: ContextId,
    /// The memories, by slot.
    pub memories: Seq<VMMemory>,
    /// The tables, by slot.
    pub tables: Seq<VMTableView>,
    /// The globals, by slot.
    pub globals: Seq<VMGlobal>,
    /// The functions, by slot.
    pub functions: Seq<VMFunction>,
    /// The host objects, by slot.
    pub extern_objs: Seq<VMExternObj>,
}

impl ContextObjectsView {
    /// Every table of the arena meets the invariant of tables.
    pub open spec fn wf(self) -> bool {
        forall|i: int| 0 <= i < self.tables.len() ==> (#[trigger] self.tables[i]).wf()
    }

    /// The arena with another table in one slot.
    pub open spec fn with_table(self, slot: int, table: VMTableView) -> ContextObjectsView {
        ContextObjectsView { tables: self.tables.update(slot, table), ..self }
    }

    /// The arena with one more table, in a slot of its own.
    pub open spec fn with_new_table(self, table: VMTableView) -> ContextObjectsView {
        ContextObjectsView { tables: self.tables.push(table), ..self }
    }
}

/// The objects that an arena owns, each kind in a list of its own. The slot
/// of an object is its place in the list, and never changes.
#[derive(Debug)]
pub struct ContextObjects {
    id: ContextId,
    memories: Vec<VMMemory>,
    tables: Vec<VMTable>,
    globals: Vec<VMGlobal>,
    functions: Vec<VMFunction>,
    extern_objs: Vec<VMExternObj>,
}

impl View for ContextObjects {
    type V = ContextObjectsView;

    open spec fn view(&self) -> ContextObjectsView {
        ContextObjectsView {
            id: self.spec_id(),
            memories: self.spec_memories(),
            tables: Seq::new(self.spec_tables().len(), |i: int| self.spec_tables()[i]@),
            globals: self.spec_globals(),
            functions: self.spec_functions(),
            extern_objs: self.spec_extern_objs(),
        }
    }
}

/// A kind of object that an arena owns.
pub trait ContextObject: Sized {
    /// The objects of this kind in the arena, by slot.
    spec fn spec_list(ctx: &ContextObjects) -> Seq<Self>;

    /// What the arena holds besides the objects of this kind.
    spec fn spec_rest(ctx: &ContextObjects) -> ContextObjectsView;

    /// The list of the objects of this kind.
    fn list(ctx: &ContextObjects) -> (l: &Vec<Self>)
        ensures
            l@ == Self::spec_list(ctx),
    ;

    /// The list of the objects of this kind, for writing. Nothing else in
    /// the arena changes through it.
    fn list_mut(ctx: &mut ContextObjects) -> (l: &mut Vec<Self>)
        ensures
            l@ == Self::spec_list(old(ctx)),
            Self::spec_list(final(ctx)) == final(l)@,
            Self::spec_rest(final(ctx)) == Self::spec_rest(old(ctx)),
    ;
}

impl ContextObject for VMTable {
    open spec fn spec_list(ctx: &ContextObjects) -> Seq<Self> {
        ctx.spec_tables()
    }

    open spec fn spec_rest(ctx: &ContextObjects) -> ContextObjectsView {
        ContextObjectsView { tables: Seq::empty(), ..ctx@ }
    }

    fn list(ctx: &ContextObjects) -> (l: &Vec<Self>) {
        &ctx.tables
    }

    fn list_mut(ctx: &mut ContextObjects) -> (l: &mut Vec<Self>) {
        &mut ctx.tables
    }
}

impl ContextObject for VMFunction {
    open spec fn spec_list(ctx: &ContextObjects) -> Seq<Self> {
        ctx.spec_functions()
    }

    open spec fn spec_rest(ctx: &ContextObjects) -> ContextObjectsView {
        ContextObjectsView { functions: Seq::empty(), ..ctx@ }
    }

    fn list(ctx: &ContextObjects) -> (l: &Vec<Self>) {
        &ctx.functions
    }

    fn list_mut(ctx: &mut ContextObjects) -> (l: &mut Vec<Self>) {
        &mut ctx.functions
    }
}

impl ContextObject for VMGlobal {
    open spec fn spec_list(ctx: &ContextObjects) -> Seq<Self> {
        ctx.spec_globals()
    }

    open spec fn spec_rest(ctx: &ContextObjects) -> ContextObjectsView {
        ContextObjectsView { globals: Seq::empty(), ..ctx@ }
    }

    fn list(ctx: &ContextObjects) -> (l: &Vec<Self>) {
        &ctx.globals
    }

    fn list_mut(ctx: &mut ContextObjects) -> (l: &mut Vec<Self>) {
        &mut ctx.globals
    }
}

impl ContextObject for VMMemory {
    open spec fn spec_list(ctx: &ContextObjects) -> Seq<Self> {
        ctx.spec_memories()
    }

    open spec fn spec_rest(ctx: &ContextObjects) -> ContextObjectsView {
        ContextObjectsView { memories: Seq::empty(), ..ctx@ }
    }

    fn list(ctx: &ContextObjects) -> (l: &Vec<Self>) {
        &ctx.memories
    }

    fn list_mut(ctx: &mut ContextObjects) -> (l: &mut Vec<Self>) {
        &mut ctx.memories
    }
}

impl ContextObject for VMExternObj {
    open spec fn spec_list(ctx: &ContextObjects) -> Seq<Self> {
        ctx.spec_extern_objs()
    }

    open spec fn spec_rest(ctx: &ContextObjects) -> ContextObjectsView {
        ContextObjectsView { extern_objs: Seq::empty(), ..ctx@ }
    }

    fn list(ctx: &ContextObjects) -> (l: &Vec<Self>) {
        &ctx.extern_objs
    }

    fn list_mut(ctx: &mut ContextObjects) -> (l: &mut Vec<Self>) {
        &mut ctx.extern_objs
    }
}

impl ContextObjects {
    /// The identity of the arena.
    pub closed spec fn spec_id(&self) -> ContextId {
        self.id
    }

    /// The memories, by slot.
    pub closed spec fn spec_memories(&self) -> Seq<VMMemory> {
        self.memories@
    }

    /// The tables, by slot.
    pub closed spec fn spec_tables(&self) -> Seq<VMTable> {
        self.tables@
    }

    /// The globals, by slot.
    pub closed spec fn spec_globals(&self) -> Seq<VMGlobal> {
        self.globals@
    }

    /// The functions, by slot.
    pub closed spec fn spec_functions(&self) -> Seq<VMFunction> {
        self.functions@
    }

    /// The host objects, by slot.
    pub closed spec fn spec_extern_objs(&self) -> Seq<VMExternObj> {
        self.extern_objs@
    }

    /// An empty arena with the given identity.
    pub fn new(id: ContextId) -> (r: ContextObjects)
        ensures
            r@.id == id,
            r@.memories.len() == 0,
            r@.tables.len() == 0,
            r@.globals.len() == 0,
            r@.functions.len() == 0,
            r@.extern_objs.len() == 0,
            r@.wf(),
    {
        ContextObjects {
            id,
            memories: Vec::new(),
            tables: Vec::new(),
            globals: Vec::new(),
            functions: Vec::new(),
            extern_objs: Vec::new(),
        }
    }

    /// Returns the identity of the arena.
    pub fn id(&self) -> (r: ContextId)
        ensures
            r == self@.id,
    {
        self.id
    }

    /// Gives access to two objects of one kind at once. The handles must
    /// name two different slots that are in use: one object cannot be
    /// handed out twice. Only the two slots change through the result.
    pub fn get_2_mut<T: ContextObject>(
        &mut self,
        a: InternalContextHandle<T>,
        b: InternalContextHandle<T>,
    ) -> (r: (&mut T, &mut T))
        requires
            a.slot() != b.slot(),
            a.slot() < T::spec_list(old(self)).len(),
            b.slot() < T::spec_list(old(self)).len(),
        ensures
            *r.0 == T::spec_list(old(self))[a.slot()],
            *r.1 == T::spec_list(old(self))[b.slot()],
            T::spec_list(final(self)) == T::spec_list(old(self)).update(
                a.slot(),
                *final(r.0),
            ).update(b.slot(), *final(r.1)),
            T::spec_rest(final(self)) == T::spec_rest(old(self)),
    {
        let list = T::list_mut(self);
        if a.idx < b.idx {
            let (low, high) = list.as_mut_slice().split_at_mut(b.idx);
            (&mut low[a.idx], &mut high[0])
        } else {
            let (low, high) = list.as_mut_slice().split_at_mut(a.idx);
            (&mut high[0], &mut low[b.idx])
        }
    }
}

/// A handle to an object within an arena that is known from elsewhere: the
/// slot alone, without the identity of the arena.
#[derive(Debug)]
pub struct InternalContextHandle<T> {
    idx: usize,
    marker: PhantomData<T>,
}

impl<T> Clone for InternalContextHandle<T> {
    fn clone(&self) -> (r: Self)
        ensures
            r == *self,
    {
        *self
    }
}

impl<T> Copy for InternalContextHandle<T> {

}

impl<T> PartialEq for InternalContextHandle<T> {
    fn eq(&self, other: &Self) -> (r: bool) {
        self.idx == other.idx
    }
}

impl<T> Eq for InternalContextHandle<T> {

}

impl<T> vstd::std_specs::cmp::PartialEqSpecImpl for InternalContextHandle<T> {
    open spec fn obeys_eq_spec() -> bool {
        true
    }

    open spec fn eq_spec(&self, other: &Self) -> bool {
        self.slot() == other.slot()
    }
}

impl<T> InternalContextHandle<T> {
    /// The slot that the handle names.
    pub closed spec fn slot(&self) -> int {
        self.idx as int
    }

    /// Returns the slot that the handle names.
    pub fn index(&self) -> (r: usize)
        ensures
            r == self.slot(),
    {
        self.idx
    }

    /// The handle that names the given slot.
    pub fn from_index(idx: usize) -> (r: Self)
        ensures
            r.slot() == idx,
    {
        InternalContextHandle { idx, marker: PhantomData }
    }
}

impl<T: ContextObject> InternalContextHandle<T> {
    /// Whether the slot of the handle is in use in the arena.
    pub open spec fn is_live_in(&self, ctx: &ContextObjects) -> bool {
        0 <= self.slot() < T::spec_list(ctx).len()
    }

    /// Moves the object into the arena, into a slot of its own, and returns
    /// the handle of the slot.
    pub fn new(ctx: &mut ContextObjects, val: T) -> (r: Self)
        ensures
            r.slot() == T::spec_list(old(ctx)).len(),
            T::spec_list(final(ctx)) == T::spec_list(old(ctx)).push(val),
            T::spec_rest(final(ctx)) == T::spec_rest(old(ctx)),
    {
        let list = T::list_mut(ctx);
        let idx = list.len();
        list.push(val);
        InternalContextHandle { idx, marker: PhantomData }
    }

    /// Returns the object in the slot of the handle.
    pub fn get<'a>(&self, ctx: &'a ContextObjects) -> (r: &'a T)
        requires
            self.is_live_in(ctx),
        ensures
            *r == T::spec_list(ctx)[self.slot()],
    {
        &T::list(ctx)[self.idx]
    }

    /// Returns the object in the slot of the handle, for writing. Only that
    /// slot changes through it.
    pub fn get_mut<'a>(&self, ctx: &'a mut ContextObjects) -> (r: &'a mut T)
        requires
            self.is_live_in(old(ctx)),
        ensures
            *r == T::spec_list(old(ctx))[self.slot()],
            T::spec_list(final(ctx)) == T::spec_list(old(ctx)).update(self.slot(), *final(r)),
            T::spec_rest(final(ctx)) == T::spec_rest(old(ctx)),
    {
        &mut T::list_mut(ctx)[self.idx]
    }
}

/// A handle as a mathematical value: the identity of an arena and a slot.
pub struct HandleView {
    /// The identity of the arena.
    pub id: ContextId,
    /// The slot of the object.
    pub slot: int,
}

impl HandleView {
    /// Whether a list of `len` objects in the arena of identity `id` has an
    /// object for the handle.
    pub open spec fn is_live(self, id: ContextId, len: nat) -> bool {
        self.id == id && 0 <= self.slot < len
    }
}

/// A handle to an object of an arena: the identity of the arena and the
/// slot of the object.
#[derive(Debug)]
pub struct ContextHandle<T> {
    id: ContextId,
    internal: InternalContextHandle<T>,
}

impl<T> Clone for ContextHandle<T> {
    fn clone(&self) -> (r: Self)
        ensures
            r == *self,
    {
        ContextHandle { id: self.id, internal: self.internal }
    }
}

impl<T> PartialEq for ContextHandle<T> {
    fn eq(&self, other: &Self) -> (r: bool) {
        self.id == other.id && self.internal == other.internal
    }
}

impl<T> Eq for ContextHandle<T> {

}

impl<T> vstd::std_specs::cmp::PartialEqSpecImpl for ContextHandle<T> {
    open spec fn obeys_eq_spec() -> bool {
        true
    }

    open spec fn eq_spec(&self, other: &Self) -> bool {
        self.spec_context_id() == other.spec_context_id() && self.spec_internal().slot()
            == other.spec_internal().slot()
    }
}

impl<T> View for ContextHandle<T> {
    type V = HandleView;

    open spec fn view(&self) -> HandleView {
        HandleView { id: self.spec_context_id(), slot: self.spec_internal().slot() }
    }
}

impl<T> ContextHandle<T> {
    /// The identity of the arena that the handle belongs to.
    pub closed spec fn spec_context_id(&self) -> ContextId {
        self.id
    }

    /// The handle without the identity of the arena.
    pub closed spec fn spec_internal(&self) -> InternalContextHandle<T> {
        self.internal
    }

    /// Two handles with the same identity and the same slot are the same
    /// handle.
    pub proof fn lemma_view_determines(a: Self, b: Self)
        requires
            a@ == b@,
        ensures
            a == b,
    {
    }

    /// Returns the handle without the identity of the arena.
    pub fn internal_handle(&self) -> (r: InternalContextHandle<T>)
        ensures
            r == self.spec_internal(),
    {
        self.internal
    }

    /// Returns the identity of the arena that the handle belongs to.
    pub fn context_id(&self) -> (r: ContextId)
        ensures
            r == self.spec_context_id(),
    {
        self.id
    }

    /// The handle of the given slot in the arena of the given identity.
    /// Nothing checks that the slot is in use there: the handle is of use
    /// only where it is.
    pub fn from_internal(id: ContextId, internal: InternalContextHandle<T>) -> (r: Self)
        ensures
            r.spec_context_id() == id,
            r.spec_internal() == internal,
    {
        ContextHandle { id, internal }
    }
}

impl<T: ContextObject> ContextHandle<T> {
    /// Whether the handle belongs to the arena and its slot is in use.
    pub open spec fn is_live_in(&self, ctx: &ContextObjects) -> bool {
        self.spec_context_id() == ctx@.id && self.spec_internal().is_live_in(ctx)
    }

    /// Moves the object into the arena and returns a handle to it.
    pub fn new(ctx: &mut ContextObjects, val: T) -> (r: Self)
        ensures
            r.spec_context_id() == old(ctx)@.id,
            r.spec_internal().slot() == T::spec_list(old(ctx)).len(),
            T::spec_list(final(ctx)) == T::spec_list(old(ctx)).push(val),
            T::spec_rest(final(ctx)) == T::spec_rest(old(ctx)),
    {
        let id = ctx.id;
        ContextHandle { id, internal: InternalContextHandle::new(ctx, val) }
    }

    /// Returns the object that the handle points to.
    pub fn get<'a>(&self, ctx: &'a ContextObjects) -> (r: &'a T)
        requires
            self.is_live_in(ctx),
        ensures
            *r == T::spec_list(ctx)[self.spec_internal().slot()],
    {
        self.internal.get(ctx)
    }

    /// Returns the object that the handle points to, for writing.
    pub fn get_mut<'a>(&self, ctx: &'a mut ContextObjects) -> (r: &'a mut T)
        requires
            self.is_live_in(old(ctx)),
        ensures
            *r == T::spec_list(old(ctx))[self.spec_internal().slot()],
            T::spec_list(final(ctx)) == T::spec_list(old(ctx)).update(
                self.spec_internal().slot(),
                *final(r),
            ),
            T::spec_rest(final(ctx)) == T::spec_rest(old(ctx)),
    {
        self.internal.get_mut(ctx)
    }
}

/// One session of the virtual machine: the arena of its objects and the
/// store that they were made under.
pub struct Context<E: ?Sized> {
    objects: ContextObjects,
    store: Store<E>,
}

impl<E: ?Sized> View for Context<E> {
    type V = ContextObjectsView;

    open spec fn view(&self) -> ContextObjectsView {
        self.spec_objects()@
    }
}

impl<E: ?Sized> Context<E> {
    /// The arena of the session.
    pub closed spec fn spec_objects(&self) -> ContextObjects {
        self.objects
    }

    /// The store of the session.
    pub closed spec fn spec_store(&self) -> Store<E> {
        self.store
    }

    /// A session under the given store, with an empty arena whose identity
    /// is taken from `ids`. Returns `None` when `ids` has no identity left.
    pub fn new(store: &Store<E>, ids: &mut ContextIds) -> (r: Option<Context<E>>)
        ensures
            match r {
                Some(ctx) => {
                    &&& old(ids).remaining() > 0
                    &&& final(ids).remaining() == old(ids).remaining() - 1
                    &&& !old(ids).issued(ctx@.id)
                    &&& forall|other: ContextId|
                        final(ids).issued(other) <==> old(ids).issued(other) || other == ctx@.id
                    &&& ctx@.wf()
                    &&& ctx@.memories.len() == 0
                    &&& ctx@.tables.len() == 0
                    &&& ctx@.globals.len() == 0
                    &&& ctx@.functions.len() == 0
                    &&& ctx@.extern_objs.len() == 0
                    &&& ctx.spec_store()@ == store@
                },
                None => old(ids).remaining() == 0 && *final(ids) == *old(ids),
            },
    {
        match ids.fresh() {
            Some(id) => Some(Context { objects: ContextObjects::new(id), store: store.clone() }),
            None => None,
        }
    }

    /// Returns the store of the session.
    pub fn store(&self) -> (r: &Store<E>)
        ensures
            *r == self.spec_store(),
    {
        &self.store
    }

    /// Returns the arena of the session.
    pub fn objects(&self) -> (r: &ContextObjects)
        ensures
            *r == self.spec_objects(),
    {
        &self.objects
    }

    /// Returns the arena of the session, for writing. The store stays.
    pub fn objects_mut(&mut self) -> (r: &mut ContextObjects)
        ensures
            *r == old(self).spec_objects(),
            final(self).spec_objects() == *final(r),
            final(self).spec_store() == old(self).spec_store(),
    {
        &mut self.objects
    }
}

} // verus!
