//! Linking: binding the imports that a module declares to the externs that
//! the host supplies, and reporting how instantiation ended.

use crate::context::{Context, ContextObjectsView};
use crate::error::{
    ImportError, ImportErrorView, InstantiationError, InstantiationErrorView, LinkError,
    LinkErrorView, RuntimeError, Trap,
};
use crate::externals::{Extern, ExternView};
use crate::types::{ExternType, ExternTypeView};
use crate::vm::VMExtern;
use vstd::prelude::*;

verus! {

/// A declared import as a mathematical value.
pub struct ImportTypeView {
    /// The name of the module that the import comes from.
    pub module: Seq<char>,
    /// The name of the field within that module.
    pub name: Seq<char>,
    /// The type that the import must have.
    pub ty: ExternTypeView,
}

/// An import that a module declares: where it comes from and the type that
/// it must have.
#[derive(Clone, Debug, PartialEq, Eq)]
pub struct ImportType {
    module: String,
    name: String,
    ty: ExternType,
}

impl View for ImportType {
    type V = ImportTypeView;

    closed spec fn view(&self) -> ImportTypeView {
        ImportTypeView { module: self.module@, name: self.name@, ty: self.ty@ }
    }
}

impl ImportType {
    /// An import of the given type from the given module and field.
    pub fn new(module: String, name: String, ty: ExternType) -> (r: ImportType)
        ensures
            r@ == (ImportTypeView { module: module@, name: name@, ty: ty@ }),
    {
        ImportType { module, name, ty }
    }

    /// Returns the name of the module.
    pub fn module(&self) -> (r: &str)
        ensures
            r@ == self@.module,
    {
        self.module.as_str()
    }

    /// Returns the name of the field.
    pub fn name(&self) -> (r: &str)
        ensures
            r@ == self@.name,
    {
        self.name.as_str()
    }

    /// Returns the type that the import must have.
    pub fn ty(&self) -> (r: &ExternType)
        ensures
            r@ == self@.ty,
    {
        &self.ty
    }
}

/// Whether an entity of the type `supplied` can be bound to an import of
/// the type `expected`: the types are compatible, and a table has elements
/// of exactly the expected type.
pub open spec fn type_binds(supplied: ExternTypeView, expected: ExternTypeView) -> bool {
    &&& supplied.compatible_with(expected)
    &&& match (supplied, expected) {
        (ExternTypeView::Table(a), ExternTypeView::Table(b)) => a.ty == b.ty,
        _ => true,
    }
}

/// Why the extern that was supplied for a declared import cannot be bound
/// to it, if it cannot: nothing was supplied, or something of a type that
/// does not bind.
pub open spec fn import_fault(
    ctx: ContextObjectsView,
    declared: ImportTypeView,
    supplied: Option<ExternView>,
) -> Option<ImportErrorView> {
    match supplied {
        None => Some(ImportErrorView::UnknownImport(declared.ty)),
        Some(e) => if type_binds(e.ty(ctx), declared.ty) {
            None
        } else {
            Some(ImportErrorView::IncompatibleType(declared.ty, e.ty(ctx)))
        },
    }
}

/// The extern that was supplied for the import at a position, if any.
pub open spec fn supplied_at(supplied: Seq<Extern>, i: int) -> Option<ExternView> {
    if 0 <= i < supplied.len() {
        Some(supplied[i]@)
    } else {
        None
    }
}

/// The position of the first declared import, from `from` on, that cannot
/// be bound, if there is one.
pub open spec fn first_fault(
    ctx: ContextObjectsView,
    declared: Seq<ImportType>,
    supplied: Seq<Extern>,
    from: int,
) -> Option<int>
    decreases declared.len() - from,
{
    if from < 0 || from >= declared.len() {
        None
    } else if import_fault(ctx, declared[from]@, supplied_at(supplied, from)) is Some {
        Some(from)
    } else {
        first_fault(ctx, declared, supplied, from + 1)
    }
}

/// Whether a type can be bound to an import of the expected type: see
/// [`type_binds`].
fn check_type_binds(supplied: &ExternType, expected: &ExternType) -> (r: bool)
    ensures
        r == type_binds(supplied@, expected@),
{
    if !supplied.is_compatible_with(expected) {
        return false;
    }
    match (supplied, expected) {
        (ExternType::Table(a), ExternType::Table(b)) => a.ty == b.ty,
        _ => true,
    }
}

/// Binds the declared imports of a module, in order, to the externs that
/// the host supplies at the same positions. Returns the exports to link
/// against, or the error of the first import that cannot be bound: an
/// `Import` error that names the module and the field of that import.
pub fn resolve_imports<E: ?Sized>(
    ctx: &Context<E>,
    declared: &Vec<ImportType>,
    supplied: &Vec<Extern>,
) -> (r: Result<Vec<VMExtern>, LinkError>)
    requires
        forall|j: int| 0 <= j < supplied@.len() ==> (#[trigger] supplied@[j])@.is_live_in(ctx@),
    ensures
        match first_fault(ctx@, declared@, supplied@, 0) {
            Some(i) => r matches Err(e) && e@ == LinkErrorView::Import(
                declared@[i]@.module,
                declared@[i]@.name,
                import_fault(ctx@, declared@[i]@, supplied_at(supplied@, i))->Some_0,
            ),
            None => r matches Ok(exports) && exports@.len() == declared@.len() && forall|j: int|
                0 <= j < declared@.len() ==> ExternView::from_vm_export(
                    ctx@.id,
                    #[trigger] exports@[j],
                ) == supplied@[j]@,
        },
{
    let mut exports: Vec<VMExtern> = Vec::new();
    let mut i: usize = 0;
    while i < declared.len()
        invariant
            i <= declared@.len(),
            forall|j: int| 0 <= j < supplied@.len() ==> (#[trigger] supplied@[j])@.is_live_in(ctx@),
            first_fault(ctx@, declared@, supplied@, 0) == first_fault(
                ctx@,
                declared@,
                supplied@,
                i as int,
            ),
            i <= supplied@.len(),
            exports@.len() == i,
            forall|j: int|
                0 <= j < i ==> ExternView::from_vm_export(ctx@.id, #[trigger] exports@[j])
                    == supplied@[j]@,
        decreases declared@.len() - i,
    {
        let import = &declared[i];
        if i >= supplied.len() {
            return Err(
                LinkError::Import(
                    import.module.clone(),
                    import.name.clone(),
                    ImportError::UnknownImport(import.ty.clone()),
                ),
            );
        }
        let resolved = &supplied[i];
        assert(resolved@.is_live_in(ctx@));
        let extern_type = resolved.ty(ctx);
        if !check_type_binds(&extern_type, &import.ty) {
            return Err(
                LinkError::Import(
                    import.module.clone(),
                    import.name.clone(),
                    ImportError::IncompatibleType(import.ty.clone(), extern_type),
                ),
            );
        }
        let export = resolved.to_vm_extern();
        proof {
            assert(resolved@.id() == ctx@.id);
        }
        exports.push(export);
        i += 1;
    }
    Ok(exports)
}

/// Reports how the start function of a module ended: a trap of the start
/// function fails instantiation with a `Start` error that holds the trap.
pub fn finish_instantiation(started: Result<(), Trap>) -> (r: Result<(), InstantiationError>)
    ensures
        match started {
            Ok(_) => r is Ok,
            Err(trap) => r matches Err(e) && e@ == InstantiationErrorView::Start(
                RuntimeError::spec_from_trap(trap),
            ),
        },
{
    match started {
        Ok(()) => Ok(()),
        Err(trap) => Err(InstantiationError::Start(RuntimeError::from_trap(trap))),
    }
}

/// An import that is supplied with an extern of a type that does not bind
/// makes linking fail, and the position of the first such import decides
/// the error, whatever is supplied for the imports after it.
pub proof fn lemma_mismatched_import_fails(
    ctx: ContextObjectsView,
    declared: Seq<ImportType>,
    supplied: Seq<Extern>,
    i: int,
)
    requires
        0 <= i < declared.len(),
        i < supplied.len(),
        !type_binds(supplied[i]@.ty(ctx), declared[i]@.ty),
    ensures
        first_fault(ctx, declared, supplied, 0) matches Some(k) && k <= i,
{
    lemma_fault_found(ctx, declared, supplied, 0, i);
}

/// A fault at a position is found from every earlier position on.
proof fn lemma_fault_found(
    ctx: ContextObjectsView,
    declared: Seq<ImportType>,
    supplied: Seq<Extern>,
    from: int,
    i: int,
)
    requires
        0 <= from <= i < declared.len(),
        import_fault(ctx, declared[i]@, supplied_at(supplied, i)) is Some,
    ensures
        first_fault(ctx, declared, supplied, from) matches Some(k) && from <= k <= i,
    decreases i - from,
{
    if from < i && import_fault(ctx, declared[from]@, supplied_at(supplied, from)) is None {
        lemma_fault_found(ctx, declared, supplied, from + 1, i);
    }
}

} // verus!
