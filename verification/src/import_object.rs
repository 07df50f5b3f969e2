//! The values that a host offers to a module, found by module name and
//! field name.

use crate::text::str_eq;
use vstd::prelude::*;

verus! {

/// A function of the host that a module can import.
#[derive(Copy, Clone, Debug, PartialEq, Eq, Hash, Structural)]
pub enum HostFunction {
    /// Formatted output.
    Printf,
    /// Output of one character.
    Putchar,
    /// Takes the lock of the C library.
    Lock,
    /// Releases the lock of the C library.
    Unlock,
    /// Reads a variable of the environment.
    Getenv,
    /// Stores the error number.
    SetErrNo,
    /// System call 1, exit.
    Syscall1,
    /// System call 3, read.
    Syscall3,
    /// System call 4, write.
    Syscall4,
    /// System call 5, open.
    Syscall5,
    /// System call 6, close.
    Syscall6,
    /// System call 54, ioctl.
    Syscall54,
    /// System call 140, llseek.
    Syscall140,
    /// System call 145, readv.
    Syscall145,
    /// System call 146, writev.
    Syscall146,
    /// System call 221, fcntl64.
    Syscall221,
    /// Aborts with a message.
    EmAbort,
    /// Aborts.
    Abort,
    /// Aborts on an overflow of the stack.
    AbortStackOverflow,
    /// Aborts when memory cannot grow.
    AbortOnCannotGrowMemory,
    /// Copies a large block of memory.
    EmscriptenMemcpyBig,
    /// Enlarges the memory.
    EnlargeMemory,
    /// Reports the size of the memory.
    GetTotalMemory,
    /// Call through a null pointer, signature `ii`.
    NullFuncIi,
    /// Call through a null pointer, signature `iii`.
    NullFuncIii,
    /// Call through a null pointer, signature `iiii`.
    NullFuncIiii,
    /// Call through a null pointer, signature `iiiii`.
    NullFuncIiiii,
    /// Call through a null pointer, signature `iiiiii`.
    NullFuncIiiiii,
    /// Call through a null pointer, signature `vi`.
    NullFuncVi,
    /// Call through a null pointer, signature `vii`.
    NullFuncVii,
    /// Call through a null pointer, signature `viii`.
    NullFuncViii,
    /// Call through a null pointer, signature `viiii`.
    NullFuncViiii,
}

/// A value that a host offers for import.
#[derive(Copy, Clone, Debug, PartialEq, Eq, Hash, Structural)]
pub enum ImportValue {
    /// A function of the host.
    Func(HostFunction),
    /// A global with its value.
    Global(i64),
}

/// A binding as a mathematical value: module name, field name and value.
pub type Binding = (Seq<char>, Seq<char>, ImportValue);

/// The map that results from setting the bindings one after another: a
/// later binding of a key replaces an earlier one.
pub open spec fn bindings_map(bindings: Seq<Binding>) -> Map<(Seq<char>, Seq<char>), ImportValue>
    decreases bindings.len(),
{
    if bindings.len() == 0 {
        Map::empty()
    } else {
        let last = bindings.last();
        bindings_map(bindings.drop_last()).insert((last.0, last.1), last.2)
    }
}

/// No two bindings of the list have the same module name and field name.
pub open spec fn distinct_keys(bindings: Seq<Binding>) -> bool {
    forall|i: int, j: int|
        0 <= i < j < bindings.len() ==> !(bindings[i].0 == bindings[j].0 && bindings[i].1
            == bindings[j].1)
}

/// A key is in the map exactly when some binding of the list has it.
pub proof fn lemma_bindings_map_domain(bindings: Seq<Binding>, key: (Seq<char>, Seq<char>))
    ensures
        bindings_map(bindings).contains_key(key) <==> exists|i: int|
            0 <= i < bindings.len() && #[trigger] bindings[i].0 == key.0 && bindings[i].1 == key.1,
    decreases bindings.len(),
{
    if bindings.len() > 0 {
        let rest = bindings.drop_last();
        lemma_bindings_map_domain(rest, key);
        let last = bindings.last();
        if bindings_map(bindings).contains_key(key) {
            if key == (last.0, last.1) {
                assert(bindings[bindings.len() - 1].0 == key.0);
            } else {
                let i = choose|i: int|
                    0 <= i < rest.len() && #[trigger] rest[i].0 == key.0 && rest[i].1 == key.1;
                assert(bindings[i].0 == key.0);
            }
        }
        if exists|i: int|
            0 <= i < bindings.len() && #[trigger] bindings[i].0 == key.0 && bindings[i].1 == key.1 {
            let i = choose|i: int|
                0 <= i < bindings.len() && #[trigger] bindings[i].0 == key.0 && bindings[i].1
                    == key.1;
            if i < rest.len() {
                assert(rest[i].0 == key.0);
            }
        }
    }
}

/// Where keys are distinct, the map gives each key the value of its binding.
pub proof fn lemma_bindings_map_value(bindings: Seq<Binding>, i: int)
    requires
        distinct_keys(bindings),
        0 <= i < bindings.len(),
    ensures
        bindings_map(bindings).contains_key((bindings[i].0, bindings[i].1)),
        bindings_map(bindings)[(bindings[i].0, bindings[i].1)] == bindings[i].2,
    decreases bindings.len(),
{
    let rest = bindings.drop_last();
    if i < rest.len() {
        assert(distinct_keys(rest)) by {
            assert forall|a: int, b: int| 0 <= a < b < rest.len() implies !(rest[a].0 == rest[b].0
                && rest[a].1 == rest[b].1) by {
                assert(rest[a] == bindings[a] && rest[b] == bindings[b]);
            }
        }
        lemma_bindings_map_value(rest, i);
        assert(rest[i] == bindings[i]);
    }
}

/// Where keys are distinct, replacing the value of one binding amounts to
/// inserting the new value under its key.
proof fn lemma_bindings_map_replace(bindings: Seq<Binding>, i: int, val: ImportValue)
    requires
        distinct_keys(bindings),
        0 <= i < bindings.len(),
    ensures
        bindings_map(bindings.update(i, (bindings[i].0, bindings[i].1, val))) == bindings_map(
            bindings,
        ).insert((bindings[i].0, bindings[i].1), val),
        distinct_keys(bindings.update(i, (bindings[i].0, bindings[i].1, val))),
    decreases bindings.len(),
{
    let key = (bindings[i].0, bindings[i].1);
    let changed = bindings.update(i, (bindings[i].0, bindings[i].1, val));
    let rest = bindings.drop_last();
    if i == bindings.len() - 1 {
        assert(changed.drop_last() =~= rest);
        assert(bindings_map(changed) =~= bindings_map(bindings).insert(key, val));
    } else {
        assert(distinct_keys(rest)) by {
            assert forall|a: int, b: int| 0 <= a < b < rest.len() implies !(rest[a].0 == rest[b].0
                && rest[a].1 == rest[b].1) by {
                assert(rest[a] == bindings[a] && rest[b] == bindings[b]);
            }
        }
        lemma_bindings_map_replace(rest, i, val);
        assert(rest[i] == bindings[i]);
        assert(changed.drop_last() =~= rest.update(i, (bindings[i].0, bindings[i].1, val)));
        assert(changed.last() == bindings.last());
        let last = bindings.last();
        assert(!(bindings[i].0 == last.0 && bindings[i].1 == last.1));
        assert(bindings_map(changed) =~= bindings_map(bindings).insert(key, val));
    }
}

/// A table of values for import, each found by a module name and a field
/// name. A key has at most one value.
pub struct ImportObject<A, B> {
    entries: Vec<(A, B, ImportValue)>,
}

impl<'a, 'b> ImportObject<&'a str, &'b str> {
    /// The bindings in the order in which their keys were first set.
    pub closed spec fn bindings(&self) -> Seq<Binding> {
        Seq::new(
            self.entries@.len(),
            |i: int| (self.entries@[i].0@, self.entries@[i].1@, self.entries@[i].2),
        )
    }

    /// No key is held twice.
    pub closed spec fn wf(&self) -> bool {
        distinct_keys(self.bindings())
    }

    /// The table as a map from module name and field name to value.
    pub closed spec fn view(&self) -> Map<(Seq<char>, Seq<char>), ImportValue> {
        bindings_map(self.bindings())
    }

    /// An empty table.
    pub fn new() -> (r: Self)
        ensures
            r.wf(),
            r@ == Map::<(Seq<char>, Seq<char>), ImportValue>::empty(),
    {
        let r = ImportObject { entries: Vec::new() };
        assert(r.bindings() =~= Seq::<Binding>::empty());
        r
    }

    /// The position of the binding of a key, if the key is bound.
    fn find(&self, module: &str, name: &str) -> (r: Option<usize>)
        ensures
            match r {
                Some(i) => i < self.bindings().len() && self.bindings()[i as int].0 == module@
                    && self.bindings()[i as int].1 == name@,
                None => forall|j: int|
                    0 <= j < self.bindings().len() ==> !(#[trigger] self.bindings()[j].0 == module@
                        && self.bindings()[j].1 == name@),
            },
    {
        let mut i: usize = 0;
        while i < self.entries.len()
            invariant
                i <= self.entries.len(),
                self.bindings().len() == self.entries.len(),
                forall|j: int|
                    0 <= j < i ==> !(#[trigger] self.bindings()[j].0 == module@
                        && self.bindings()[j].1 == name@),
            decreases self.entries.len() - i,
        {
            if str_eq(self.entries[i].0, module) && str_eq(self.entries[i].1, name) {
                return Some(i);
            }
            i += 1;
        }
        None
    }

    /// Returns the value bound to the module name and field name, if any.
    pub fn get(&self, module: &str, name: &str) -> (r: Option<&ImportValue>)
        requires
            self.wf(),
        ensures
            match r {
                Some(val) => self@.contains_key((module@, name@)) && *val == self@[(
                    module@,
                    name@,
                )],
                None => !self@.contains_key((module@, name@)),
            },
    {
        match self.find(module, name) {
            Some(i) => {
                proof {
                    lemma_bindings_map_value(self.bindings(), i as int);
                }
                Some(&self.entries[i].2)
            },
            None => {
                proof {
                    lemma_bindings_map_domain(self.bindings(), (module@, name@));
                }
                None
            },
        }
    }

    /// Binds the value to the module name and field name. A value bound to
    /// them before is replaced.
    pub fn set(&mut self, module: &'a str, name: &'b str, val: ImportValue)
        requires
            old(self).wf(),
        ensures
            final(self).wf(),
            final(self)@ == old(self)@.insert((module@, name@), val),
    {
        let ghost before = self.bindings();
        match self.find(module, name) {
            Some(i) => {
                proof {
                    lemma_bindings_map_replace(before, i as int, val);
                }
                let at = self.entries[i];
                self.entries.set(i, (at.0, at.1, val));
                assert(self.bindings() =~= before.update(
                    i as int,
                    (before[i as int].0, before[i as int].1, val),
                ));
            },
            None => {
                self.entries.push((module, name, val));
                assert(self.bindings() =~= before.push((module@, name@, val)));
                assert(self.bindings().drop_last() =~= before);
            },
        }
    }
}

} // verus!
