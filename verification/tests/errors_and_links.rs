use std::sync::Arc;
use wasmer_core::context::{Context, ContextIds};
use wasmer_core::error::{
    ImportError, InstantiationError, LinkError, RuntimeError, Trap, TrapCode,
};
use wasmer_core::externals::function::Function;
use wasmer_core::externals::global::Global;
use wasmer_core::externals::memory::Memory;
use wasmer_core::externals::table::Table;
use wasmer_core::externals::Extern;
use wasmer_core::link::{finish_instantiation, resolve_imports, ImportType};
use wasmer_core::store::Store;
use wasmer_core::text::{str_eq, u32_to_string};
use wasmer_core::types::{
    ExternType, FunctionType, GlobalType, MemoryType, Mutability, Pages, TableType, Type,
};
use wasmer_core::value::Value;

#[test]
fn runtime_error_messages() {
    assert_eq!(RuntimeError::new("unexpected error").message(), "unexpected error");
    assert_eq!(RuntimeError::new("unexpected error").to_trap(), None);
    let e = RuntimeError::from_trap(Trap::lib(TrapCode::TableAccessOutOfBounds));
    assert_eq!(e.message(), "undefined element: out of bounds table access");
    assert_eq!(e.to_trap(), Some(TrapCode::TableAccessOutOfBounds));
    let e = RuntimeError::from_trap(Trap::oom());
    assert_eq!(e.message(), "Wasmer VM out of memory");
    assert_eq!(e.to_trap(), None);
}

#[test]
fn trap_code_messages() {
    assert_eq!(TrapCode::StackOverflow.message(), "call stack exhausted");
    assert_eq!(TrapCode::HeapAccessOutOfBounds.message(), "out of bounds memory access");
    assert_eq!(TrapCode::HeapMisaligned.message(), "misaligned heap");
    assert_eq!(TrapCode::OutOfBounds.message(), "out of bounds");
    assert_eq!(TrapCode::IndirectCallToNull.message(), "uninitialized element");
    assert_eq!(TrapCode::BadSignature.message(), "indirect call type mismatch");
    assert_eq!(TrapCode::IntegerOverflow.message(), "integer overflow");
    assert_eq!(TrapCode::IntegerDivisionByZero.message(), "integer divide by zero");
    assert_eq!(TrapCode::BadConversionToInteger.message(), "invalid conversion to integer");
    assert_eq!(TrapCode::UnreachableCodeReached.message(), "unreachable");
    assert_eq!(TrapCode::UnalignedAtomic.message(), "unaligned atomic access");
}

#[test]
fn decimal_notation() {
    assert_eq!(u32_to_string(0), "0");
    assert_eq!(u32_to_string(7), "7");
    assert_eq!(u32_to_string(10), "10");
    assert_eq!(u32_to_string(1905), "1905");
    assert_eq!(u32_to_string(u32::MAX), "4294967295");
}

#[test]
fn string_slices_compare_by_characters() {
    assert!(str_eq("", ""));
    assert!(str_eq("env", "env"));
    assert!(!str_eq("env", "enw"));
    assert!(!str_eq("env", "en"));
    assert!(str_eq("gr\u{fc}n", "gr\u{fc}n"));
    assert!(!str_eq("gr\u{fc}n", "grun"));
}

#[test]
fn type_names_and_classes() {
    assert_eq!(Type::I32.name(), "I32");
    assert_eq!(Type::ExternRef.name(), "ExternRef");
    assert!(Type::V128.is_num());
    assert!(!Type::V128.is_ref());
    assert!(Type::FuncRef.is_ref());
    assert!(!Type::FuncRef.is_num());
    assert!(Mutability::Var.is_mutable());
    assert!(!Mutability::Const.is_mutable());
}

fn table_type(ty: Type, min: u32, max: Option<u32>) -> ExternType {
    ExternType::Table(TableType::new(ty, min, max))
}

#[test]
fn extern_type_compatibility() {
    let f = |p: Vec<Type>| ExternType::Function(FunctionType::new(p, vec![Type::I32]));
    assert!(f(vec![Type::I32]).is_compatible_with(&f(vec![Type::I32])));
    assert!(!f(vec![Type::I32]).is_compatible_with(&f(vec![Type::I64])));
    assert!(!f(vec![]).is_compatible_with(&f(vec![Type::I32])));

    let g = |t, m| ExternType::Global(GlobalType::new(t, m));
    assert!(g(Type::I32, Mutability::Var).is_compatible_with(&g(Type::I32, Mutability::Var)));
    assert!(!g(Type::I32, Mutability::Var).is_compatible_with(&g(Type::I32, Mutability::Const)));
    assert!(!g(Type::I32, Mutability::Var).is_compatible_with(&g(Type::F32, Mutability::Var)));

    assert!(table_type(Type::FuncRef, 2, Some(4))
        .is_compatible_with(&table_type(Type::FuncRef, 1, Some(5))));
    assert!(table_type(Type::FuncRef, 2, Some(4))
        .is_compatible_with(&table_type(Type::FuncRef, 2, None)));
    assert!(!table_type(Type::FuncRef, 2, None)
        .is_compatible_with(&table_type(Type::FuncRef, 2, Some(9))));
    assert!(!table_type(Type::FuncRef, 2, Some(10))
        .is_compatible_with(&table_type(Type::FuncRef, 2, Some(9))));
    assert!(!table_type(Type::FuncRef, 1, Some(4))
        .is_compatible_with(&table_type(Type::FuncRef, 2, Some(5))));
    assert!(table_type(Type::FuncRef, 1, None)
        .is_compatible_with(&table_type(Type::ExternRef, 1, None)));
    assert!(!table_type(Type::ExternRef, 1, None)
        .is_compatible_with(&table_type(Type::FuncRef, 1, None)));

    let m = |min, max: Option<u32>, shared| {
        ExternType::Memory(MemoryType::new(Pages(min), max.map(Pages), shared))
    };
    assert!(m(2, Some(3), false).is_compatible_with(&m(1, Some(3), false)));
    assert!(!m(2, Some(3), true).is_compatible_with(&m(1, Some(3), false)));
    assert!(!m(0, Some(3), false).is_compatible_with(&m(1, Some(3), false)));
    assert!(!m(2, None, false).is_compatible_with(&m(1, Some(3), false)));

    assert!(!m(1, None, false).is_compatible_with(&table_type(Type::FuncRef, 1, None)));
    assert!(!g(Type::I32, Mutability::Var).is_compatible_with(&f(vec![])));
}

struct Host {
    ctx: Context<u8>,
    externs: Vec<Extern>,
}

fn host() -> Host {
    let mut ids = ContextIds::new();
    let store = Store::new(Arc::new(0u8));
    let mut ctx = Context::new(&store, &mut ids).unwrap();
    let function = Function::new(&mut ctx, FunctionType::new(vec![Type::I32], vec![]));
    let table =
        Table::new(&mut ctx, TableType::new(Type::FuncRef, 2, Some(4)), Value::FuncRef(None))
            .unwrap();
    let global = Global::new(&mut ctx, GlobalType::new(Type::I64, Mutability::Var));
    let memory = Memory::new(&mut ctx, MemoryType::new(Pages(1), Some(Pages(2)), false));
    let externs = vec![function.into(), table.into(), global.into(), memory.into()];
    Host { ctx, externs }
}

fn import(module: &str, name: &str, ty: ExternType) -> ImportType {
    ImportType::new(module.to_string(), name.to_string(), ty)
}

fn matching_imports() -> Vec<ImportType> {
    vec![
        import("env", "f", ExternType::Function(FunctionType::new(vec![Type::I32], vec![]))),
        import("env", "t", table_type(Type::FuncRef, 1, Some(4))),
        import("env", "g", ExternType::Global(GlobalType::new(Type::I64, Mutability::Var))),
        import(
            "env",
            "m",
            ExternType::Memory(MemoryType::new(Pages(1), Some(Pages(2)), false)),
        ),
    ]
}

#[test]
fn imports_that_match_are_resolved() {
    let h = host();
    let declared = matching_imports();
    assert_eq!(declared[1].module(), "env");
    assert_eq!(declared[1].name(), "t");
    assert_eq!(*declared[1].ty(), table_type(Type::FuncRef, 1, Some(4)));
    let exports = resolve_imports(&h.ctx, &declared, &h.externs).unwrap();
    assert_eq!(exports.len(), 4);
    for (export, supplied) in exports.iter().zip(h.externs.iter()) {
        assert_eq!(*export, supplied.to_vm_extern());
    }
    assert_eq!(resolve_imports(&h.ctx, &Vec::new(), &h.externs).unwrap().len(), 0);
}

#[test]
fn import_of_a_different_type_is_an_import_error() {
    let h = host();
    let mut declared = matching_imports();
    let expected = ExternType::Global(GlobalType::new(Type::I32, Mutability::Var));
    declared[2] = import("host", "counter", expected.clone());
    let supplied = ExternType::Global(GlobalType::new(Type::I64, Mutability::Var));
    assert_eq!(
        resolve_imports(&h.ctx, &declared, &h.externs),
        Err(LinkError::Import(
            "host".to_string(),
            "counter".to_string(),
            ImportError::IncompatibleType(expected, supplied)
        ))
    );
}

#[test]
fn import_of_a_different_kind_is_an_import_error() {
    let h = host();
    let mut declared = matching_imports();
    let expected = table_type(Type::FuncRef, 0, None);
    declared[0] = import("a", "b", expected.clone());
    match resolve_imports(&h.ctx, &declared, &h.externs) {
        Err(LinkError::Import(module, field, ImportError::IncompatibleType(e, s))) => {
            assert_eq!(module, "a");
            assert_eq!(field, "b");
            assert_eq!(e, expected);
            assert_eq!(s, ExternType::Function(FunctionType::new(vec![Type::I32], vec![])));
        }
        other => panic!("unexpected {:?}", other),
    }
}

#[test]
fn first_import_that_fails_decides() {
    let h = host();
    let mut declared = matching_imports();
    declared[1] = import("env", "first", table_type(Type::ExternRef, 1, Some(4)));
    declared[3] = import("env", "second", table_type(Type::FuncRef, 0, None));
    match resolve_imports(&h.ctx, &declared, &h.externs) {
        Err(LinkError::Import(_, field, ImportError::IncompatibleType(_, _))) => {
            assert_eq!(field, "first")
        }
        other => panic!("unexpected {:?}", other),
    }
}

#[test]
fn import_without_a_value_is_unknown() {
    let h = host();
    let mut declared = matching_imports();
    let extra = ExternType::Function(FunctionType::new(vec![], vec![]));
    declared.push(import("env", "missing", extra.clone()));
    assert_eq!(
        resolve_imports(&h.ctx, &declared, &h.externs),
        Err(LinkError::Import(
            "env".to_string(),
            "missing".to_string(),
            ImportError::UnknownImport(extra)
        ))
    );
}

#[test]
fn start_trap_is_a_start_error() {
    assert_eq!(finish_instantiation(Ok(())), Ok(()));
    match finish_instantiation(Err(Trap::lib(TrapCode::UnreachableCodeReached))) {
        Err(InstantiationError::Start(e)) => {
            assert_eq!(e.message(), "unreachable");
            assert_eq!(e.to_trap(), Some(TrapCode::UnreachableCodeReached));
        }
        other => panic!("unexpected {:?}", other),
    }
    match finish_instantiation(Err(Trap::oom())) {
        Err(InstantiationError::Start(e)) => assert_eq!(e.message(), "Wasmer VM out of memory"),
        other => panic!("unexpected {:?}", other),
    }
}
