use std::sync::Arc;
use wasmer_core::context::{Context, ContextHandle, ContextIds, InternalContextHandle};
use wasmer_core::error::ExportError;
use wasmer_core::externals::function::Function;
use wasmer_core::externals::global::Global;
use wasmer_core::externals::memory::Memory;
use wasmer_core::externals::table::Table;
use wasmer_core::externals::{Exportable, Extern};
use wasmer_core::store::{Store, StoreObject};
use wasmer_core::types::{
    ExternType, FunctionType, GlobalType, MemoryType, Mutability, Pages, TableType, Type,
};
use wasmer_core::value::Value;
use wasmer_core::vm::{VMExtern, VMGlobal, VMTable};

struct Kinds {
    ctx: Context<u8>,
    function: Function,
    global: Global,
    table: Table,
    memory: Memory,
}

fn kinds(ids: &mut ContextIds) -> Kinds {
    let store = Store::new(Arc::new(0u8));
    let mut ctx = Context::new(&store, ids).unwrap();
    let function = Function::new(&mut ctx, FunctionType::new(vec![Type::I32], vec![]));
    let global = Global::new(&mut ctx, GlobalType::new(Type::I64, Mutability::Var));
    let table =
        Table::new(&mut ctx, TableType::new(Type::FuncRef, 1, Some(2)), Value::FuncRef(None))
            .unwrap();
    let memory = Memory::new(&mut ctx, MemoryType::new(Pages(1), Some(Pages(4)), false));
    Kinds { ctx, function, global, table, memory }
}

#[test]
fn extern_round_trip_for_each_kind() {
    let mut ids = ContextIds::new();
    let k = kinds(&mut ids);

    let e = Extern::from(k.function.clone());
    assert_eq!(Function::get_self_from_extern(&e), Ok(&k.function));
    assert_eq!(Global::get_self_from_extern(&e), Err(ExportError::IncompatibleType));
    assert_eq!(Table::get_self_from_extern(&e), Err(ExportError::IncompatibleType));
    assert_eq!(Memory::get_self_from_extern(&e), Err(ExportError::IncompatibleType));

    let e = Extern::from(k.global.clone());
    assert_eq!(Global::get_self_from_extern(&e), Ok(&k.global));
    assert_eq!(Function::get_self_from_extern(&e), Err(ExportError::IncompatibleType));
    assert_eq!(Table::get_self_from_extern(&e), Err(ExportError::IncompatibleType));
    assert_eq!(Memory::get_self_from_extern(&e), Err(ExportError::IncompatibleType));

    let e = Extern::from(k.table.clone());
    assert_eq!(Table::get_self_from_extern(&e), Ok(&k.table));
    assert_eq!(Function::get_self_from_extern(&e), Err(ExportError::IncompatibleType));
    assert_eq!(Global::get_self_from_extern(&e), Err(ExportError::IncompatibleType));
    assert_eq!(Memory::get_self_from_extern(&e), Err(ExportError::IncompatibleType));

    let e = Extern::from(k.memory.clone());
    assert_eq!(Memory::get_self_from_extern(&e), Ok(&k.memory));
    assert_eq!(Function::get_self_from_extern(&e), Err(ExportError::IncompatibleType));
    assert_eq!(Global::get_self_from_extern(&e), Err(ExportError::IncompatibleType));
    assert_eq!(Table::get_self_from_extern(&e), Err(ExportError::IncompatibleType));
}

#[test]
fn extern_narrows_to_itself() {
    let mut ids = ContextIds::new();
    let k = kinds(&mut ids);
    let e = Extern::from(k.table.clone());
    assert!(Extern::get_self_from_extern(&e) == Ok(&e));
}

#[test]
fn extern_type_is_the_type_of_the_object() {
    let mut ids = ContextIds::new();
    let k = kinds(&mut ids);
    assert_eq!(
        Extern::from(k.function.clone()).ty(&k.ctx),
        ExternType::Function(FunctionType::new(vec![Type::I32], vec![]))
    );
    assert_eq!(
        Extern::from(k.global.clone()).ty(&k.ctx),
        ExternType::Global(GlobalType::new(Type::I64, Mutability::Var))
    );
    assert_eq!(
        Extern::from(k.table.clone()).ty(&k.ctx),
        ExternType::Table(TableType::new(Type::FuncRef, 1, Some(2)))
    );
    assert_eq!(
        Extern::from(k.memory.clone()).ty(&k.ctx),
        ExternType::Memory(MemoryType::new(Pages(1), Some(Pages(4)), false))
    );
    assert_eq!(k.function.ty(&k.ctx).params(), &[Type::I32]);
    assert_eq!(k.function.ty(&k.ctx).results(), &[] as &[Type]);
}

#[test]
fn extern_from_vm_export_keeps_kind_and_slot() {
    let mut ids = ContextIds::new();
    let k = kinds(&mut ids);
    let export = k.table.to_vm_extern();
    assert!(matches!(export, VMExtern::Table(_)));
    let e = Extern::from_vm_export(&k.ctx, export);
    assert_eq!(Table::get_self_from_extern(&e), Ok(&k.table));
    assert_eq!(e.to_vm_extern(), export);
    assert!(e.is_from_context(&k.ctx));

    let e = Extern::from_vm_export(&k.ctx, k.function.to_vm_extern());
    assert_eq!(Function::get_self_from_extern(&e), Ok(&k.function));
    let e = Extern::from_vm_export(&k.ctx, k.global.to_vm_extern());
    assert_eq!(Global::get_self_from_extern(&e), Ok(&k.global));
    let e = Extern::from_vm_export(&k.ctx, k.memory.to_vm_extern());
    assert_eq!(Memory::get_self_from_extern(&e), Ok(&k.memory));
    assert_eq!(
        Extern::from_vm_export(&k.ctx, VMExtern::Memory(InternalContextHandle::from_index(0)))
            .to_vm_extern(),
        k.memory.to_vm_extern()
    );
}

#[test]
fn extern_of_another_context_is_told_apart() {
    let mut ids = ContextIds::new();
    let one = kinds(&mut ids);
    let two = kinds(&mut ids);
    let e = Extern::from(two.table.clone());
    assert!(!e.is_from_context(&one.ctx));
    assert!(e.is_from_context(&two.ctx));
    assert!(one.table != two.table);
    assert!(!one.function.is_from_context(&two.ctx));
    assert!(!one.global.is_from_context(&two.ctx));
    assert!(!one.memory.is_from_context(&two.ctx));
}

#[test]
fn extern_debug_string_names_the_kind() {
    let mut ids = ContextIds::new();
    let k = kinds(&mut ids);
    assert_eq!(Extern::from(k.function.clone()).debug_string(), "Function(...)");
    assert_eq!(Extern::from(k.global.clone()).debug_string(), "Global(...)");
    assert_eq!(Extern::from(k.table.clone()).debug_string(), "Table(...)");
    assert_eq!(Extern::from(k.memory.clone()).debug_string(), "Memory(...)");
}

#[test]
fn store_same_is_identity_of_the_engine() {
    let engine = Arc::new(5u8);
    let a = Store::new(engine.clone());
    let b = Store::new(engine);
    let c = Store::new(Arc::new(5u8));
    assert!(Store::same(&a, &b));
    assert!(Store::same(&a, &a.clone()));
    assert!(!Store::same(&a, &c));
    assert!(a == b);
    assert!(a != c);
    assert_eq!(**a.engine(), 5);
    assert!(Arc::ptr_eq(a.engine(), b.engine()));
}

#[test]
fn context_comes_from_its_store() {
    let mut ids = ContextIds::new();
    let store = Store::new(Arc::new(1u8));
    let other = Store::new(Arc::new(1u8));
    let ctx = Context::new(&store, &mut ids).unwrap();
    assert!(ctx.comes_from_same_store(&store));
    assert!(!ctx.comes_from_same_store(&other));
    assert!(Store::same(ctx.store(), &store));
}

#[test]
fn context_identities_are_fresh() {
    let mut ids = ContextIds::new();
    let store = Store::new(Arc::new(1u8));
    let a = Context::new(&store, &mut ids).unwrap();
    let b = Context::new(&store, &mut ids).unwrap();
    let c = Context::new(&store, &mut ids).unwrap();
    assert_ne!(a.objects().id(), b.objects().id());
    assert_ne!(a.objects().id(), c.objects().id());
    assert_ne!(b.objects().id(), c.objects().id());
    let x = ids.fresh().unwrap();
    let y = ids.fresh().unwrap();
    assert_ne!(x, y);
    assert_ne!(x, c.objects().id());
}

#[test]
fn arena_hands_out_slots_in_order() {
    let mut ids = ContextIds::new();
    let store = Store::new(Arc::new(1u8));
    let mut ctx = Context::new(&store, &mut ids).unwrap();
    let id = ctx.objects().id();
    let objects = ctx.objects_mut();
    let a = ContextHandle::new(objects, VMGlobal { ty: GlobalType::new(Type::I32, Mutability::Const) });
    let b = ContextHandle::new(objects, VMGlobal { ty: GlobalType::new(Type::F32, Mutability::Var) });
    assert_eq!(a.internal_handle().index(), 0);
    assert_eq!(b.internal_handle().index(), 1);
    assert_eq!(a.context_id(), id);
    assert_eq!(a.get(objects).ty.ty, Type::I32);
    assert_eq!(b.get(objects).ty.ty, Type::F32);
    b.get_mut(objects).ty.mutability = Mutability::Const;
    assert_eq!(b.get(objects).ty.mutability, Mutability::Const);
    assert_eq!(a.get(objects).ty.mutability, Mutability::Const);
    assert!(a != b);
    assert!(a == ContextHandle::from_internal(id, InternalContextHandle::from_index(0)));
}

#[test]
fn arena_gives_two_slots_at_once() {
    let mut ids = ContextIds::new();
    let store = Store::new(Arc::new(1u8));
    let mut ctx = Context::new(&store, &mut ids).unwrap();
    let style = wasmer_core::types::TableStyle::CallerChecksSignature;
    let objects = ctx.objects_mut();
    let mut handles = Vec::new();
    for n in 1..=3u32 {
        let table = VMTable::new(&TableType::new(Type::FuncRef, n, None), &style).unwrap();
        handles.push(ContextHandle::new(objects, table).internal_handle());
    }
    let (a, b) = objects.get_2_mut(handles[0], handles[2]);
    assert_eq!((a.size(), b.size()), (1, 3));
    let (a, b) = objects.get_2_mut(handles[2], handles[0]);
    assert_eq!((a.size(), b.size()), (3, 1));
    let (a, b) = objects.get_2_mut(handles[1], handles[2]);
    assert_eq!((a.size(), b.size()), (2, 3));
    let (a, b) = objects.get_2_mut(handles[1], handles[0]);
    assert_eq!((a.size(), b.size()), (2, 1));
}
