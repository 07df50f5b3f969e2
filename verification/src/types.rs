//! Type descriptors of WebAssembly values and of the entities that a module
//! imports and exports.

use vstd::prelude::*;

verus! {

/// The value types of WebAssembly.
#[derive(Copy, Clone, Debug, PartialEq, Eq, Hash, Structural)]
pub enum Type {
    /// Signed 32 bit integer.
    I32,
    /// Signed 64 bit integer.
    I64,
    /// 32 bit floating point number.
    F32,
    /// 64 bit floating point number.
    F64,
    /// A 128 bit number.
    V128,
    /// A reference to opaque host data.
    ExternRef,
    /// A reference to a function.
    FuncRef,
}

impl Type {
    /// Whether the type is one of the numeric types.
    pub open spec fn spec_is_num(self) -> bool {
        self is I32 || self is I64 || self is F32 || self is F64 || self is V128
    }

    /// Whether the type is one of the two reference types.
    pub open spec fn spec_is_ref(self) -> bool {
        self is ExternRef || self is FuncRef
    }

    /// The name of the type, as messages show it.
    pub open spec fn spec_name(self) -> Seq<char> {
        match self {
            Type::I32 => "I32"@,
            Type::I64 => "I64"@,
            Type::F32 => "F32"@,
            Type::F64 => "F64"@,
            Type::V128 => "V128"@,
            Type::ExternRef => "ExternRef"@,
            Type::FuncRef => "FuncRef"@,
        }
    }

    /// Returns the name of the type.
    pub fn name(self) -> (r: &'static str)
        ensures
            r@ == self.spec_name(),
    {
        match self {
            Type::I32 => "I32",
            Type::I64 => "I64",
            Type::F32 => "F32",
            Type::F64 => "F64",
            Type::V128 => "V128",
            Type::ExternRef => "ExternRef",
            Type::FuncRef => "FuncRef",
        }
    }

    /// Returns true for `I32`, `I64`, `F32`, `F64` and `V128`.
    #[verifier::when_used_as_spec(spec_is_num)]
    pub fn is_num(self) -> (r: bool)
        ensures
            r == self.spec_is_num(),
    {
        match self {
            Type::I32 | Type::I64 | Type::F32 | Type::F64 | Type::V128 => true,
            Type::ExternRef | Type::FuncRef => false,
        }
    }

    /// Returns true for `ExternRef` and `FuncRef`.
    #[verifier::when_used_as_spec(spec_is_ref)]
    pub fn is_ref(self) -> (r: bool)
        ensures
            r == self.spec_is_ref(),
    {
        match self {
            Type::ExternRef | Type::FuncRef => true,
            Type::I32 | Type::I64 | Type::F32 | Type::F64 | Type::V128 => false,
        }
    }
}

/// Whether a global may change after it was created.
#[derive(Copy, Clone, Debug, PartialEq, Eq, Hash, Structural)]
pub enum Mutability {
    /// The global is constant.
    Const,
    /// The global can be written.
    Var,
}

impl Mutability {
    /// Returns true for `Var`.
    pub fn is_mutable(self) -> (r: bool)
        ensures
            r == (self is Var),
    {
        match self {
            Mutability::Var => true,
            Mutability::Const => false,
        }
    }
}

/// The type of a global: the type of its value and its mutability.
#[derive(Copy, Clone, Debug, PartialEq, Eq, Hash, Structural)]
pub struct GlobalType {
    /// The type of the stored value.
    pub ty: Type,
    /// Whether the value may change.
    pub mutability: Mutability,
}

impl GlobalType {
    /// A global type with the given value type and mutability.
    pub fn new(ty: Type, mutability: Mutability) -> (r: GlobalType)
        ensures
            r == (GlobalType { ty, mutability }),
    {
        GlobalType { ty, mutability }
    }
}

/// The declared type of a table: the kind of its elements and the limits on
/// its length.
#[derive(Copy, Clone, Debug, PartialEq, Eq, Hash)]
pub struct TableType {
    /// The type of the elements.
    pub ty: Type,
    /// The least number of elements, which is the number at creation.
    pub minimum: u32,
    /// The largest number of elements the table may grow to, if bounded.
    pub maximum: Option<u32>,
}

impl TableType {
    /// A table type with the given element type and limits.
    pub fn new(ty: Type, minimum: u32, maximum: Option<u32>) -> (r: TableType)
        ensures
            r == (TableType { ty, minimum, maximum }),
    {
        TableType { ty, minimum, maximum }
    }

    /// Whether storage can be allocated for this type: the elements are
    /// references and the maximum, if any, is not below the minimum.
    pub open spec fn allocatable(self) -> bool {
        &&& self.ty.spec_is_ref()
        &&& (self.maximum matches Some(max) ==> self.minimum <= max)
    }
}

/// A number of 64 KiB pages of linear memory.
#[derive(Copy, Clone, Debug, PartialEq, Eq, Hash, Structural)]
pub struct Pages(pub u32);

/// The declared type of a linear memory.
#[derive(Copy, Clone, Debug, PartialEq, Eq, Hash)]
pub struct MemoryType {
    /// The least number of pages.
    pub minimum: Pages,
    /// The largest number of pages, if bounded.
    pub maximum: Option<Pages>,
    /// Whether the memory may be shared between threads.
    pub shared: bool,
}

impl MemoryType {
    /// A memory type with the given limits.
    pub fn new(minimum: Pages, maximum: Option<Pages>, shared: bool) -> (r: MemoryType)
        ensures
            r == (MemoryType { minimum, maximum, shared }),
    {
        MemoryType { minimum, maximum, shared }
    }
}

/// The storage strategy of a table.
#[derive(Copy, Clone, Debug, PartialEq, Eq, Hash, Structural)]
pub enum TableStyle {
    /// Signatures are stored in the table and checked by the caller.
    CallerChecksSignature,
}

/// A signature as a mathematical value.
#[verifier::ext_equal]
pub struct FunctionTypeView {
    /// The parameter types, in order.
    pub params: Seq<Type>,
    /// The result types, in order.
    pub results: Seq<Type>,
}

/// The signature of a function: the types of its parameters and results.
#[derive(Debug, Hash)]
pub struct FunctionType {
    params: Vec<Type>,
    results: Vec<Type>,
}

/// Whether two lists of types are equal, element by element.
fn types_equal(a: &Vec<Type>, b: &Vec<Type>) -> (r: bool)
    ensures
        r == (a@ == b@),
{
    if a.len() != b.len() {
        return false;
    }
    let mut i: usize = 0;
    while i < a.len()
        invariant
            i <= a.len(),
            a.len() == b.len(),
            forall|j: int| 0 <= j < i ==> a@[j] == b@[j],
        decreases a.len() - i,
    {
        if a[i] != b[i] {
            return false;
        }
        i += 1;
    }
    assert(a@ =~= b@);
    true
}

/// A copy of a list of types.
fn types_copy(a: &Vec<Type>) -> (r: Vec<Type>)
    ensures
        r@ == a@,
{
    let mut r: Vec<Type> = Vec::new();
    let mut i: usize = 0;
    while i < a.len()
        invariant
            i <= a.len(),
            r@.len() == i,
            forall|j: int| 0 <= j < i ==> r@[j] == a@[j],
        decreases a.len() - i,
    {
        r.push(a[i]);
        i += 1;
    }
    assert(r@ =~= a@);
    r
}

impl View for FunctionType {
    type V = FunctionTypeView;

    closed spec fn view(&self) -> FunctionTypeView {
        FunctionTypeView { params: self.params@, results: self.results@ }
    }
}

impl FunctionType {
    /// A signature with the given parameter and result types.
    pub fn new(params: Vec<Type>, results: Vec<Type>) -> (r: FunctionType)
        ensures
            r@ == (FunctionTypeView { params: params@, results: results@ }),
    {
        FunctionType { params, results }
    }

    /// The parameter types.
    pub fn params(&self) -> (r: &[Type])
        ensures
            r@ == self@.params,
    {
        self.params.as_slice()
    }

    /// The result types.
    pub fn results(&self) -> (r: &[Type])
        ensures
            r@ == self@.results,
    {
        self.results.as_slice()
    }
}

impl Clone for FunctionType {
    fn clone(&self) -> (r: FunctionType)
        ensures
            r@ == self@,
    {
        FunctionType { params: types_copy(&self.params), results: types_copy(&self.results) }
    }
}

impl PartialEq for FunctionType {
    fn eq(&self, other: &FunctionType) -> (r: bool) {
        types_equal(&self.params, &other.params) && types_equal(&self.results, &other.results)
    }
}

impl Eq for FunctionType {

}

impl vstd::std_specs::cmp::PartialEqSpecImpl for FunctionType {
    open spec fn obeys_eq_spec() -> bool {
        true
    }

    open spec fn eq_spec(&self, other: &FunctionType) -> bool {
        self@ == other@
    }
}

/// The type of an importable or exportable entity, as a mathematical value.
pub enum ExternTypeView {
    /// The type of a function.
    Function(FunctionTypeView),
    /// The type of a global.
    Global(GlobalType),
    /// The type of a table.
    Table(TableType),
    /// The type of a memory.
    Memory(MemoryType),
}

/// Whether limits that are supplied satisfy limits that are expected: the
/// supplied minimum is at least the expected one, and where a maximum is
/// expected, one is supplied that does not exceed it.
pub open spec fn limits_fit(
    supplied_min: u32,
    supplied_max: Option<u32>,
    expected_min: u32,
    expected_max: Option<u32>,
) -> bool {
    &&& expected_min <= supplied_min
    &&& (expected_max matches Some(expected) ==> (supplied_max matches Some(supplied)
        && supplied <= expected))
}

impl ExternTypeView {
    /// Whether an entity of this type can be supplied where `expected` is
    /// imported: both are of one kind, and
    /// - functions have the same signature,
    /// - globals have the same value type and mutability,
    /// - a table holds function references or elements of the expected
    ///   type, within the expected limits,
    /// - a memory lies within the expected limits and is shared as expected.
    pub open spec fn compatible_with(self, expected: ExternTypeView) -> bool {
        match (self, expected) {
            (ExternTypeView::Function(a), ExternTypeView::Function(b)) => a == b,
            (ExternTypeView::Global(a), ExternTypeView::Global(b)) => a == b,
            (ExternTypeView::Table(a), ExternTypeView::Table(b)) => {
                &&& (a.ty is FuncRef || a.ty == b.ty)
                &&& limits_fit(a.minimum, a.maximum, b.minimum, b.maximum)
            },
            (ExternTypeView::Memory(a), ExternTypeView::Memory(b)) => {
                &&& limits_fit(
                    a.minimum.0,
                    match a.maximum {
                        Some(p) => Some(p.0),
                        None => None,
                    },
                    b.minimum.0,
                    match b.maximum {
                        Some(p) => Some(p.0),
                        None => None,
                    },
                )
                &&& a.shared == b.shared
            },
            _ => false,
        }
    }
}

/// The type of an entity that a module can import or export.
#[derive(Debug, PartialEq, Eq, Hash)]
pub enum ExternType {
    /// The type of a function.
    Function(FunctionType),
    /// The type of a global.
    Global(GlobalType),
    /// The type of a table.
    Table(TableType),
    /// The type of a memory.
    Memory(MemoryType),
}

impl View for ExternType {
    type V = ExternTypeView;

    open spec fn view(&self) -> ExternTypeView {
        match self {
            ExternType::Function(f) => ExternTypeView::Function(f@),
            ExternType::Global(g) => ExternTypeView::Global(*g),
            ExternType::Table(t) => ExternTypeView::Table(*t),
            ExternType::Memory(m) => ExternTypeView::Memory(*m),
        }
    }
}

impl Clone for ExternType {
    fn clone(&self) -> (r: ExternType)
        ensures
            r@ == self@,
    {
        match self {
            ExternType::Function(f) => ExternType::Function(f.clone()),
            ExternType::Global(g) => ExternType::Global(*g),
            ExternType::Table(t) => ExternType::Table(*t),
            ExternType::Memory(m) => ExternType::Memory(*m),
        }
    }
}

/// Whether supplied limits satisfy expected limits: see [`limits_fit`].
fn check_limits(
    supplied_min: u32,
    supplied_max: Option<u32>,
    expected_min: u32,
    expected_max: Option<u32>,
) -> (r: bool)
    ensures
        r == limits_fit(supplied_min, supplied_max, expected_min, expected_max),
{
    if expected_min > supplied_min {
        return false;
    }
    match expected_max {
        None => true,
        Some(expected) => match supplied_max {
            None => false,
            Some(supplied) => supplied <= expected,
        },
    }
}

/// The number of pages, if any.
fn page_count(pages: Option<Pages>) -> (r: Option<u32>)
    ensures
        r == (match pages {
            Some(p) => Some(p.0),
            None => None,
        }),
{
    match pages {
        Some(p) => Some(p.0),
        None => None,
    }
}

impl ExternType {
    /// Whether an entity of this type can be supplied where `expected` is
    /// imported.
    pub fn is_compatible_with(&self, expected: &ExternType) -> (r: bool)
        ensures
            r == self@.compatible_with(expected@),
    {
        match (self, expected) {
            (ExternType::Function(a), ExternType::Function(b)) => a == b,
            (ExternType::Global(a), ExternType::Global(b)) => a.ty == b.ty && a.mutability
                == b.mutability,
            (ExternType::Table(a), ExternType::Table(b)) => {
                let element_fits = match a.ty {
                    Type::FuncRef => true,
                    _ => a.ty == b.ty,
                };
                element_fits && check_limits(a.minimum, a.maximum, b.minimum, b.maximum)
            },
            (ExternType::Memory(a), ExternType::Memory(b)) => {
                check_limits(
                    a.minimum.0,
                    page_count(a.maximum),
                    b.minimum.0,
                    page_count(b.maximum),
                ) && a.shared == b.shared
            },
            _ => false,
        }
    }
}

} // verus!
