//! The objects that live in an arena: functions, globals, memories, host
//! objects and tables, and the references that a table stores.

use crate::context::InternalContextHandle;
use crate::error::{Trap, TrapCode};
use crate::text::u32_to_string;
use crate::text::decimal;
use crate::types::{FunctionType, GlobalType, MemoryType, TableStyle, TableType, Type};
use vstd::prelude::*;
use vstd::string::StringExecFns;

verus! {

/// A host object that an external reference points to. The arena keeps the
/// word by which the host finds its data.
#[derive(Debug)]
pub struct VMExternObj {
    /// The word that the host gave.
    pub contents: u64,
}

/// A function of the arena, with the signature by which it is checked.
#[derive(Debug)]
pub struct VMFunction {
    /// The signature of the function.
    pub signature: FunctionType,
}

/// A global of the arena.
#[derive(Debug)]
pub struct VMGlobal {
    /// The type of the global.
    pub ty: GlobalType,
}

/// A linear memory of the arena.
#[derive(Debug)]
pub struct VMMemory {
    /// The type of the memory.
    pub ty: MemoryType,
}

/// A reference to a host object of the arena.
#[derive(Clone, Copy, Debug, PartialEq, Eq)]
pub struct VMExternRef(pub InternalContextHandle<VMExternObj>);

/// A reference to a function of the arena.
#[derive(Clone, Copy, Debug, PartialEq, Eq)]
pub struct VMFuncRef(pub InternalContextHandle<VMFunction>);

/// A reference stored in a table: an external reference or a function
/// reference, each of which may be null.
#[derive(Clone, Copy, Debug, PartialEq, Eq)]
pub enum TableElement {
    /// A reference to a host object, or null.
    ExternRef(Option<VMExternRef>),
    /// A reference to a function, or null.
    FuncRef(Option<VMFuncRef>),
}

impl TableElement {
    /// The reference type of the element.
    pub open spec fn spec_ty(self) -> Type {
        match self {
            TableElement::ExternRef(_) => Type::ExternRef,
            TableElement::FuncRef(_) => Type::FuncRef,
        }
    }

    /// The null reference of a reference type.
    pub open spec fn spec_null(ty: Type) -> TableElement {
        if ty is ExternRef {
            TableElement::ExternRef(None)
        } else {
            TableElement::FuncRef(None)
        }
    }

    /// Returns the reference type of the element.
    pub fn ty(&self) -> (r: Type)
        ensures
            r == self.spec_ty(),
    {
        match self {
            TableElement::ExternRef(_) => Type::ExternRef,
            TableElement::FuncRef(_) => Type::FuncRef,
        }
    }

    /// Returns the null reference of the given reference type.
    pub fn null(ty: Type) -> (r: TableElement)
        ensures
            r == Self::spec_null(ty),
    {
        match ty {
            Type::ExternRef => TableElement::ExternRef(None),
            _ => TableElement::FuncRef(None),
        }
    }
}

/// What a compiled module exports: the slot of the object in the arena,
/// by kind.
#[derive(Clone, Copy, Debug, PartialEq, Eq)]
pub enum VMExtern {
    /// A function.
    Function(InternalContextHandle<VMFunction>),
    /// A table.
    Table(InternalContextHandle<VMTable>),
    /// A memory.
    Memory(InternalContextHandle<VMMemory>),
    /// A global.
    Global(InternalContextHandle<VMGlobal>),
}

/// The result of writing `buffer` over the elements of `dst` from
/// `dst_index` on: the copy that first reads the whole source into a buffer
/// and then writes the buffer.
pub open spec fn buffered_copy<T>(dst: Seq<T>, dst_index: int, buffer: Seq<T>) -> Seq<T> {
    Seq::new(
        dst.len(),
        |i: int|
            if dst_index <= i < dst_index + buffer.len() {
                buffer[i - dst_index]
            } else {
                dst[i]
            },
    )
}

/// The result of writing the first `count` elements of `buffer` over `dst`
/// one after another, the first at `dst_index`.
pub open spec fn written_in_turn<T>(dst: Seq<T>, dst_index: int, buffer: Seq<T>, count: nat) -> Seq<
    T,
>
    decreases count,
{
    if count == 0 {
        dst
    } else {
        written_in_turn(dst, dst_index, buffer, (count - 1) as nat).update(
            dst_index + count - 1,
            buffer[count - 1],
        )
    }
}

/// Writing a buffer over a range at once gives what writing its elements
/// one after another gives.
pub proof fn lemma_buffered_copy_in_turn<T>(dst: Seq<T>, dst_index: int, buffer: Seq<T>)
    requires
        0 <= dst_index,
        dst_index + buffer.len() <= dst.len(),
    ensures
        buffered_copy(dst, dst_index, buffer) == written_in_turn(
            dst,
            dst_index,
            buffer,
            buffer.len(),
        ),
{
    lemma_written_in_turn(dst, dst_index, buffer, buffer.len());
    assert(buffer.take(buffer.len() as int) =~= buffer);
}

/// Writing the first `count` elements of a buffer one after another gives
/// what writing that part of the buffer at once gives.
proof fn lemma_written_in_turn<T>(dst: Seq<T>, dst_index: int, buffer: Seq<T>, count: nat)
    requires
        0 <= dst_index,
        count <= buffer.len(),
        dst_index + buffer.len() <= dst.len(),
    ensures
        written_in_turn(dst, dst_index, buffer, count) == buffered_copy(
            dst,
            dst_index,
            buffer.take(count as int),
        ),
    decreases count,
{
    if count == 0 {
        assert(buffered_copy(dst, dst_index, buffer.take(0)) =~= dst);
    } else {
        lemma_written_in_turn(dst, dst_index, buffer, (count - 1) as nat);
        assert(written_in_turn(dst, dst_index, buffer, count) =~= buffered_copy(
            dst,
            dst_index,
            buffer.take(count as int),
        ));
    }
}

/// A table as a mathematical value: its elements and its declared type.
#[verifier::ext_equal]
pub struct VMTableView {
    /// The elements, in order.
    pub elements: Seq<TableElement>,
    /// The declared type.
    pub ty: TableType,
    /// The storage strategy.
    pub style: TableStyle,
}

impl VMTableView {
    /// The invariant of a table: the elements are references of the declared
    /// kind, and their number lies within the declared limits.
    pub open spec fn wf(self) -> bool {
        &&& self.ty.ty.spec_is_ref()
        &&& self.ty.minimum <= self.elements.len() <= u32::MAX
        &&& (self.ty.maximum matches Some(max) ==> self.elements.len() <= max)
        &&& forall|i: int| 0 <= i < self.elements.len() ==> self.elements[i].spec_ty() == self.ty.ty
    }

    /// The table just after creation: the minimum number of elements, all
    /// null.
    pub open spec fn fresh(ty: TableType, style: TableStyle) -> VMTableView {
        VMTableView {
            elements: Seq::new(ty.minimum as nat, |i: int| TableElement::spec_null(ty.ty)),
            ty,
            style,
        }
    }

    /// The table with other elements.
    pub open spec fn with_elements(self, elements: Seq<TableElement>) -> VMTableView {
        VMTableView { elements, ..self }
    }

    /// The largest number of elements that the table may hold: the declared
    /// maximum, or where none is declared, the largest index type value.
    pub open spec fn limit(self) -> int {
        match self.ty.maximum {
            Some(max) => max as int,
            None => u32::MAX as int,
        }
    }

    /// Whether the table can grow by `delta` elements equal to `init`: the
    /// new length stays within the limits, and an element that is added is
    /// of the declared kind.
    pub open spec fn can_grow(self, delta: u32, init: TableElement) -> bool {
        &&& self.elements.len() + delta <= u32::MAX
        &&& (self.ty.maximum matches Some(max) ==> self.elements.len() + delta <= max)
        &&& (delta > 0 ==> init.spec_ty() == self.ty.ty)
    }

    /// The table after growing by `delta` elements equal to `init`.
    pub open spec fn grown(self, delta: u32, init: TableElement) -> VMTableView {
        self.with_elements(self.elements + Seq::new(delta as nat, |i: int| init))
    }

    /// The fault of writing `reference` at `index`, if there is one: the
    /// index is out of bounds, or the reference is not of the declared kind.
    pub open spec fn set_fault(self, index: u32, reference: TableElement) -> Option<Trap> {
        if index >= self.elements.len() {
            Some(Trap::Lib { trap_code: TrapCode::TableAccessOutOfBounds })
        } else if reference.spec_ty() != self.ty.ty {
            Some(Trap::Lib { trap_code: TrapCode::BadSignature })
        } else {
            None
        }
    }

    /// The fault of copying `len` elements from `src` at `src_index` to this
    /// table at `dst_index`, if there is one: a range is out of bounds, or
    /// elements would arrive in a table of another kind.
    pub open spec fn copy_fault(
        self,
        src: VMTableView,
        dst_index: u32,
        src_index: u32,
        len: u32,
    ) -> Option<Trap> {
        if src_index + len > src.elements.len() {
            Some(Trap::Lib { trap_code: TrapCode::TableAccessOutOfBounds })
        } else if dst_index + len > self.elements.len() {
            Some(Trap::Lib { trap_code: TrapCode::TableAccessOutOfBounds })
        } else if len > 0 && src.ty.ty != self.ty.ty {
            Some(Trap::Lib { trap_code: TrapCode::BadSignature })
        } else {
            None
        }
    }

    /// The table after `len` elements of `src` from `src_index` on were
    /// copied to `dst_index`.
    pub open spec fn copied(
        self,
        src: VMTableView,
        dst_index: u32,
        src_index: u32,
        len: u32,
    ) -> VMTableView {
        self.with_elements(
            buffered_copy(
                self.elements,
                dst_index as int,
                src.elements.subrange(src_index as int, src_index + len),
            ),
        )
    }
}

/// A table grows by all of `delta` or not at all. Where the new length
/// exceeds the limit the table cannot grow. Where it does not, the table
/// grows to exactly that length, keeps its elements, and holds `init` in
/// every new slot.
pub proof fn lemma_grow_all_or_nothing(table: VMTableView, delta: u32, init: TableElement)
    requires
        table.wf(),
        delta > 0 ==> init.spec_ty() == table.ty.ty,
    ensures
        table.elements.len() + delta > table.limit() ==> !table.can_grow(delta, init),
        table.elements.len() + delta <= table.limit() ==> {
            &&& table.can_grow(delta, init)
            &&& table.grown(delta, init).wf()
            &&& table.grown(delta, init).ty == table.ty
            &&& table.grown(delta, init).elements.len() == table.elements.len() + delta
            &&& forall|i: int|
                0 <= i < table.elements.len() ==> table.grown(delta, init).elements[i]
                    == table.elements[i]
            &&& forall|i: int|
                table.elements.len() <= i < table.elements.len() + delta ==> table.grown(
                    delta,
                    init,
                ).elements[i] == init
        },
{
}

/// A copy within one table moves the elements: whether or not the ranges
/// overlap, the table ends as if the source range had been read into a
/// buffer first and the buffer then written, element after element, over
/// the destination range.
pub proof fn lemma_copy_within_moves(table: VMTableView, dst_index: u32, src_index: u32, len: u32)
    requires
        table.wf(),
        table.copy_fault(table, dst_index, src_index, len) is None,
    ensures
        table.copied(table, dst_index, src_index, len).elements == written_in_turn(
            table.elements,
            dst_index as int,
            table.elements.subrange(src_index as int, src_index + len),
            len as nat,
        ),
        table.copied(table, dst_index, src_index, len).wf(),
        forall|i: int|
            dst_index <= i < dst_index + len ==> table.copied(
                table,
                dst_index,
                src_index,
                len,
            ).elements[i] == table.elements[i - dst_index + src_index],
        forall|i: int|
            0 <= i < table.elements.len() && !(dst_index <= i < dst_index + len) ==> table.copied(
                table,
                dst_index,
                src_index,
                len,
            ).elements[i] == table.elements[i],
{
    lemma_buffered_copy_in_turn(
        table.elements,
        dst_index as int,
        table.elements.subrange(src_index as int, src_index + len),
    );
}

/// The storage of a table.
#[derive(Debug)]
pub struct VMTable {
    vec: Vec<TableElement>,
    table: TableType,
    style: TableStyle,
}

impl View for VMTable {
    type V = VMTableView;

    closed spec fn view(&self) -> VMTableView {
        VMTableView { elements: self.vec@, ty: self.table, style: self.style }
    }
}

impl VMTable {
    /// The message that explains why no storage can be allocated for a type.
    pub open spec fn spec_new_error(table: TableType) -> Seq<char> {
        if !table.ty.spec_is_ref() {
            "tables of types other than funcref or externref ("@ + table.ty.spec_name() + ")"@
        } else {
            "Table minimum ("@ + decimal(table.minimum as nat) + ") is larger than maximum ("@
                + decimal(table.maximum.unwrap() as nat) + ")!"@
        }
    }

    /// Allocates the storage of a table of the given type: the minimum
    /// number of elements, all null. Fails with a message when the elements
    /// are not references or the maximum is below the minimum.
    pub fn new(table: &TableType, style: &TableStyle) -> (r: Result<VMTable, String>)
        ensures
            match r {
                Ok(t) => table.allocatable() && t@ == VMTableView::fresh(*table, *style)
                    && t@.wf(),
                Err(msg) => !table.allocatable() && msg@ == Self::spec_new_error(*table),
            },
    {
        if !table.ty.is_ref() {
            let mut msg = String::from_str("tables of types other than funcref or externref (");
            msg.append(table.ty.name());
            msg.append(")");
            return Err(msg);
        }
        if let Some(max) = table.maximum {
            if max < table.minimum {
                let mut msg = String::from_str("Table minimum (");
                msg.append(u32_to_string(table.minimum).as_str());
                msg.append(") is larger than maximum (");
                msg.append(u32_to_string(max).as_str());
                msg.append(")!");
                return Err(msg);
            }
        }
        let null = TableElement::null(table.ty);
        let mut vec: Vec<TableElement> = Vec::new();
        let mut i: u32 = 0;
        while i < table.minimum
            invariant
                i <= table.minimum,
                vec@.len() == i,
                null == TableElement::spec_null(table.ty),
                forall|j: int| 0 <= j < i ==> vec@[j] == null,
            decreases table.minimum - i,
        {
            vec.push(null);
            i += 1;
        }
        let t = VMTable { vec, table: *table, style: *style };
        assert(t@.elements =~= VMTableView::fresh(*table, *style).elements);
        Ok(t)
    }

    /// Returns the declared type of the table.
    pub fn ty(&self) -> (r: &TableType)
        ensures
            *r == self@.ty,
    {
        &self.table
    }

    /// Returns the storage strategy of the table.
    pub fn style(&self) -> (r: &TableStyle)
        ensures
            *r == self@.style,
    {
        &self.style
    }

    /// Returns the number of elements.
    pub fn size(&self) -> (r: u32)
        requires
            self@.wf(),
        ensures
            r == self@.elements.len(),
    {
        self.vec.len() as u32
    }

    /// Grows the table by `delta` elements equal to `init_value`. Returns
    /// the previous number of elements, or `None`, with the table as it
    /// was, when the table cannot grow so.
    pub fn grow(&mut self, delta: u32, init_value: TableElement) -> (r: Option<u32>)
        requires
            old(self)@.wf(),
        ensures
            final(self)@.wf(),
            old(self)@.can_grow(delta, init_value) ==> r == Some(old(self)@.elements.len() as u32)
                && final(self)@ == old(self)@.grown(delta, init_value),
            !old(self)@.can_grow(delta, init_value) ==> r is None && final(self)@ == old(self)@,
    {
        let size = self.size();
        let new_len = match size.checked_add(delta) {
            Some(n) => n,
            None => {
                return None;
            },
        };
        if let Some(max) = self.table.maximum {
            if new_len > max {
                return None;
            }
        }
        if new_len == size {
            assert(self@.grown(delta, init_value).elements =~= self@.elements);
            return Some(size);
        }
        if init_value.ty() != self.table.ty {
            return None;
        }
        let ghost before = self@;
        let mut i: u32 = size;
        while i < new_len
            invariant
                size <= i <= new_len,
                before.wf(),
                before.elements.len() == size,
                new_len == size + delta,
                before.ty.maximum matches Some(max) ==> new_len <= max,
                init_value.spec_ty() == before.ty.ty,
                self@.ty == before.ty,
                self@.style == before.style,
                self@.elements.len() == i,
                forall|j: int| 0 <= j < size ==> self@.elements[j] == before.elements[j],
                forall|j: int| size <= j < i ==> self@.elements[j] == init_value,
            decreases new_len - i,
        {
            self.vec.push(init_value);
            i += 1;
        }
        assert(self@.elements =~= before.grown(delta, init_value).elements);
        Some(size)
    }

    /// Returns the element at `index`, or `None` when the index is out of
    /// bounds.
    pub fn get(&self, index: u32) -> (r: Option<TableElement>)
        ensures
            r == if index < self@.elements.len() {
                Some(self@.elements[index as int])
            } else {
                None
            },
    {
        if (index as usize) < self.vec.len() {
            Some(self.vec[index as usize])
        } else {
            None
        }
    }

    /// Writes `reference` at `index`. Fails, with the table as it was, when
    /// the index is out of bounds or the reference is not of the kind of
    /// the table.
    pub fn set(&mut self, index: u32, reference: TableElement) -> (r: Result<(), Trap>)
        requires
            old(self)@.wf(),
        ensures
            final(self)@.wf(),
            match old(self)@.set_fault(index, reference) {
                Some(trap) => r == Err::<(), Trap>(trap) && final(self)@ == old(self)@,
                None => r is Ok && final(self)@ == old(self)@.with_elements(
                    old(self)@.elements.update(index as int, reference),
                ),
            },
    {
        if (index as usize) >= self.vec.len() {
            return Err(Trap::lib(TrapCode::TableAccessOutOfBounds));
        }
        if reference.ty() != self.table.ty {
            return Err(Trap::lib(TrapCode::BadSignature));
        }
        self.vec.set(index as usize, reference);
        Ok(())
    }

    /// Copies `len` elements of `src_table` from `src_index` on to this
    /// table from `dst_index` on. Fails, with the table as it was, when
    /// either range is out of bounds or the tables differ in kind.
    pub fn copy(
        &mut self,
        src_table: &VMTable,
        dst_index: u32,
        src_index: u32,
        len: u32,
    ) -> (r: Result<(), Trap>)
        requires
            old(self)@.wf(),
            src_table@.wf(),
        ensures
            final(self)@.wf(),
            match old(self)@.copy_fault(src_table@, dst_index, src_index, len) {
                Some(trap) => r == Err::<(), Trap>(trap) && final(self)@ == old(self)@,
                None => r is Ok && final(self)@ == old(self)@.copied(
                    src_table@,
                    dst_index,
                    src_index,
                    len,
                ),
            },
    {
        let out_of_src = match src_index.checked_add(len) {
            Some(n) => n > src_table.size(),
            None => true,
        };
        if out_of_src {
            return Err(Trap::lib(TrapCode::TableAccessOutOfBounds));
        }
        let out_of_dst = match dst_index.checked_add(len) {
            Some(m) => m > self.size(),
            None => true,
        };
        if out_of_dst {
            return Err(Trap::lib(TrapCode::TableAccessOutOfBounds));
        }
        if len == 0 {
            assert(self@.copied(src_table@, dst_index, src_index, len).elements
                =~= self@.elements);
            return Ok(());
        }
        if src_table.table.ty != self.table.ty {
            return Err(Trap::lib(TrapCode::BadSignature));
        }
        let ghost before = self@;
        let mut k: u32 = 0;
        while k < len
            invariant
                k <= len,
                before.wf(),
                src_table@.wf(),
                src_table@.ty.ty == before.ty.ty,
                src_index + len <= src_table@.elements.len(),
                dst_index + len <= before.elements.len(),
                self@.ty == before.ty,
                self@.style == before.style,
                self@.elements.len() == before.elements.len(),
                forall|j: int|
                    0 <= j < before.elements.len() ==> self@.elements[j] == if dst_index <= j
                        < dst_index + k {
                        src_table@.elements[src_index + (j - dst_index)]
                    } else {
                        before.elements[j]
                    },
            decreases len - k,
        {
            let item = src_table.vec[(src_index + k) as usize];
            self.vec.set((dst_index + k) as usize, item);
            k += 1;
        }
        assert(self@.elements =~= before.copied(src_table@, dst_index, src_index, len).elements);
        Ok(())
    }

    /// Copies `len` elements of this table from `src_index` on to
    /// `dst_index` on. The ranges may overlap: the elements that arrive are
    /// those that the source range held before the copy. Fails, with the
    /// table as it was, when either range is out of bounds.
    pub fn copy_within(&mut self, dst_index: u32, src_index: u32, len: u32) -> (r: Result<
        (),
        Trap,
    >)
        requires
            old(self)@.wf(),
        ensures
            final(self)@.wf(),
            match old(self)@.copy_fault(old(self)@, dst_index, src_index, len) {
                Some(trap) => r == Err::<(), Trap>(trap) && final(self)@ == old(self)@,
                None => r is Ok && final(self)@ == old(self)@.copied(
                    old(self)@,
                    dst_index,
                    src_index,
                    len,
                ),
            },
    {
        let out_of_src = match src_index.checked_add(len) {
            Some(n) => n > self.size(),
            None => true,
        };
        if out_of_src {
            return Err(Trap::lib(TrapCode::TableAccessOutOfBounds));
        }
        let out_of_dst = match dst_index.checked_add(len) {
            Some(m) => m > self.size(),
            None => true,
        };
        if out_of_dst {
            return Err(Trap::lib(TrapCode::TableAccessOutOfBounds));
        }
        let ghost before = self@;
        if dst_index <= src_index {
            // Forwards: a slot is read before the copy reaches it.
            let mut k: u32 = 0;
            while k < len
                invariant
                    k <= len,
                    dst_index <= src_index,
                    before.wf(),
                    src_index + len <= before.elements.len(),
                    dst_index + len <= before.elements.len(),
                    self@.ty == before.ty,
                    self@.style == before.style,
                    self@.elements.len() == before.elements.len(),
                    forall|j: int|
                        0 <= j < before.elements.len() ==> self@.elements[j] == if dst_index <= j
                            < dst_index + k {
                            before.elements[src_index + (j - dst_index)]
                        } else {
                            before.elements[j]
                        },
                decreases len - k,
            {
                let item = self.vec[(src_index + k) as usize];
                self.vec.set((dst_index + k) as usize, item);
                k += 1;
            }
        } else {
            // Backwards: the ranges are walked from their ends.
            let mut k: u32 = len;
            while k > 0
                invariant
                    k <= len,
                    dst_index > src_index,
                    before.wf(),
                    src_index + len <= before.elements.len(),
                    dst_index + len <= before.elements.len(),
                    self@.ty == before.ty,
                    self@.style == before.style,
                    self@.elements.len() == before.elements.len(),
                    forall|j: int|
                        0 <= j < before.elements.len() ==> self@.elements[j] == if dst_index + k
                            <= j < dst_index + len {
                            before.elements[src_index + (j - dst_index)]
                        } else {
                            before.elements[j]
                        },
                decreases k,
            {
                k -= 1;
                let item = self.vec[(src_index + k) as usize];
                self.vec.set((dst_index + k) as usize, item);
            }
        }
        assert(self@.elements =~= before.copied(before, dst_index, src_index, len).elements);
        Ok(())
    }
}

} // verus!
