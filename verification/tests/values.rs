use std::sync::Arc;
use wasmer_core::context::{Context, ContextIds};
use wasmer_core::error::{
    ExportError, ImportError, InstantiationError, LinkError, RuntimeError, Trap, TrapCode,
};
use wasmer_core::externals::function::Function;
use wasmer_core::store::Store;
use wasmer_core::types::{ExternType, FunctionType, GlobalType, Mutability, Type};
use wasmer_core::value::{ExternRef, Value};
use wasmer_core::vm::TableElement;

fn session(ids: &mut ContextIds) -> Context<str> {
    let engine: Arc<str> = Arc::from("engine");
    Context::new(&Store::new(engine), ids).unwrap()
}

#[test]
fn value_types() {
    assert_eq!(Value::I32(-1).ty(), Type::I32);
    assert_eq!(Value::I64(1).ty(), Type::I64);
    assert_eq!(Value::F32(1.5f32.to_bits()).ty(), Type::F32);
    assert_eq!(Value::F64(2.5f64.to_bits()).ty(), Type::F64);
    assert_eq!(Value::V128(3).ty(), Type::V128);
    assert_eq!(Value::ExternRef(None).ty(), Type::ExternRef);
    assert_eq!(Value::FuncRef(None).ty(), Type::FuncRef);
}

#[test]
fn values_belong_to_the_context_of_their_references() {
    let mut ids = ContextIds::new();
    let mut one = session(&mut ids);
    let mut two = session(&mut ids);
    let e = ExternRef::new(&mut one, 11);
    let f = Function::new(&mut two, FunctionType::new(vec![], vec![]));
    assert!(Value::I32(0).is_from_context(&one));
    assert!(Value::ExternRef(None).is_from_context(&two));
    assert!(Value::FuncRef(None).is_from_context(&one));
    assert!(Value::ExternRef(Some(e.clone())).is_from_context(&one));
    assert!(!Value::ExternRef(Some(e.clone())).is_from_context(&two));
    assert!(Value::FuncRef(Some(f.clone())).is_from_context(&two));
    assert!(!Value::FuncRef(Some(f)).is_from_context(&one));
    assert_eq!(e.contents(&one), 11);
}

#[test]
fn extern_refs_are_told_apart_by_slot() {
    let mut ids = ContextIds::new();
    let mut ctx = session(&mut ids);
    let a = ExternRef::new(&mut ctx, 1);
    let b = ExternRef::new(&mut ctx, 1);
    assert_ne!(a, b);
    assert_eq!(a.vm_externref().0.index(), 0);
    assert_eq!(b.vm_externref().0.index(), 1);
    assert_eq!(ExternRef::from_vm_externref(&ctx, b.vm_externref()), b);
    let f = Function::new(&mut ctx, FunctionType::new(vec![Type::F32], vec![]));
    assert_eq!(Function::from_vm_funcref(&ctx, f.vm_funcref()), f);
}

#[test]
fn table_element_kinds() {
    assert_eq!(TableElement::null(Type::ExternRef), TableElement::ExternRef(None));
    assert_eq!(TableElement::null(Type::FuncRef), TableElement::FuncRef(None));
    assert_eq!(TableElement::ExternRef(None).ty(), Type::ExternRef);
    assert_eq!(TableElement::FuncRef(None).ty(), Type::FuncRef);
}

#[test]
fn error_families_nest() {
    let trap = RuntimeError::from_trap(Trap::lib(TrapCode::IndirectCallToNull));
    let link = LinkError::Trap(trap.clone());
    assert_ne!(link, LinkError::Resource("no memory".to_string()));
    let wrapped = InstantiationError::Link(link.clone());
    assert_eq!(wrapped, InstantiationError::Link(LinkError::Trap(trap.clone())));
    assert_ne!(wrapped, InstantiationError::Start(trap));
    assert_ne!(
        InstantiationError::CpuFeature("avx".to_string()),
        InstantiationError::CpuFeature("sse2".to_string())
    );
    let ty = ExternType::Global(GlobalType::new(Type::I32, Mutability::Const));
    assert_ne!(
        ImportError::UnknownImport(ty.clone()),
        ImportError::IncompatibleType(ty.clone(), ty)
    );
    assert_ne!(ExportError::IncompatibleType, ExportError::Missing("memory".to_string()));
}
