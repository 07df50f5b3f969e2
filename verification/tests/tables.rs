use std::sync::Arc;
use wasmer_core::context::{Context, ContextIds};
use wasmer_core::error::TrapCode;
use wasmer_core::externals::function::Function;
use wasmer_core::externals::table::{
    set_table_item, value_from_table_element, value_to_table_element, Table,
};
use wasmer_core::store::Store;
use wasmer_core::types::{FunctionType, TableStyle, TableType, Type};
use wasmer_core::value::{ExternRef, Value};
use wasmer_core::vm::{TableElement, VMTable};

fn session(ids: &mut ContextIds) -> Context<u8> {
    let store = Store::new(Arc::new(0u8));
    Context::new(&store, ids).unwrap()
}

fn function(ctx: &mut Context<u8>) -> Function {
    Function::new(ctx, FunctionType::new(vec![Type::I32], vec![Type::I64]))
}

/// A table of `n` external references whose element `i` refers to a host
/// object with the contents `100 + i`.
fn numbered_table(ctx: &mut Context<u8>, n: u32) -> (Table, Vec<ExternRef>) {
    let ty = TableType::new(Type::ExternRef, n, None);
    let table = Table::new(ctx, ty, Value::ExternRef(None)).unwrap();
    let mut refs = Vec::new();
    for i in 0..n {
        let r = ExternRef::new(ctx, 100 + i as u64);
        table.set(ctx, i, Value::ExternRef(Some(r.clone()))).unwrap();
        refs.push(r);
    }
    (table, refs)
}

fn contents(ctx: &Context<u8>, table: &Table) -> Vec<u64> {
    let mut out = Vec::new();
    for i in 0..table.size(ctx) {
        match table.get(ctx, i) {
            Some(Value::ExternRef(Some(r))) => out.push(r.contents(ctx)),
            Some(Value::ExternRef(None)) => out.push(0),
            other => panic!("unexpected element {:?}", other),
        }
    }
    out
}

#[test]
fn new_table_is_filled_with_init() {
    let mut ids = ContextIds::new();
    let mut ctx = session(&mut ids);
    let f = function(&mut ctx);
    let ty = TableType::new(Type::FuncRef, 3, Some(5));
    let table = Table::new(&mut ctx, ty, Value::FuncRef(Some(f.clone()))).unwrap();
    assert_eq!(table.size(&ctx), 3);
    assert_eq!(table.ty(&ctx), ty);
    for i in 0..3 {
        assert_eq!(table.get(&ctx, i), Some(Value::FuncRef(Some(f.clone()))));
    }
    assert_eq!(table.get(&ctx, 3), None);
    assert!(table.is_from_context(&ctx));
}

#[test]
fn new_table_refuses_a_number() {
    let mut ids = ContextIds::new();
    let mut ctx = session(&mut ids);
    let ty = TableType::new(Type::FuncRef, 1, None);
    let err = Table::new(&mut ctx, ty, Value::I32(7)).unwrap_err();
    assert_eq!(err.message(), "val is not reference");
    let err = Table::new(&mut ctx, ty, Value::F64(0)).unwrap_err();
    assert_eq!(err.message(), "val is not reference");
}

#[test]
fn new_table_refuses_a_value_of_another_context() {
    let mut ids = ContextIds::new();
    let mut one = session(&mut ids);
    let mut two = session(&mut ids);
    let foreign = function(&mut two);
    let ty = TableType::new(Type::FuncRef, 1, None);
    let err = Table::new(&mut one, ty, Value::FuncRef(Some(foreign))).unwrap_err();
    assert_eq!(err.message(), "cannot pass Value across contexts");
}

#[test]
fn new_table_refuses_types_without_storage() {
    let mut ids = ContextIds::new();
    let mut ctx = session(&mut ids);
    let err = Table::new(&mut ctx, TableType::new(Type::I32, 1, None), Value::FuncRef(None))
        .unwrap_err();
    assert_eq!(err.message(), "tables of types other than funcref or externref (I32)");
    let err = Table::new(&mut ctx, TableType::new(Type::FuncRef, 12, Some(7)), Value::FuncRef(None))
        .unwrap_err();
    assert_eq!(err.message(), "Table minimum (12) is larger than maximum (7)!");
}

#[test]
fn new_table_refuses_init_of_another_kind() {
    let mut ids = ContextIds::new();
    let mut ctx = session(&mut ids);
    let ty = TableType::new(Type::FuncRef, 2, None);
    let err = Table::new(&mut ctx, ty, Value::ExternRef(None)).unwrap_err();
    assert_eq!(err.clone().to_trap(), Some(TrapCode::BadSignature));
    // With nothing to fill, the kind of init does not matter.
    let empty = TableType::new(Type::FuncRef, 0, None);
    let table = Table::new(&mut ctx, empty, Value::ExternRef(None)).unwrap();
    assert_eq!(table.size(&ctx), 0);
}

#[test]
fn get_out_of_range_is_none() {
    let mut ids = ContextIds::new();
    let mut ctx = session(&mut ids);
    let (table, _) = numbered_table(&mut ctx, 4);
    assert_eq!(table.get(&ctx, 4), None);
    assert_eq!(table.get(&ctx, 5), None);
    assert_eq!(table.get(&ctx, u32::MAX), None);
    assert!(table.get(&ctx, 3).is_some());
}

#[test]
fn set_out_of_range_fails_and_leaves_the_table() {
    let mut ids = ContextIds::new();
    let mut ctx = session(&mut ids);
    let (table, refs) = numbered_table(&mut ctx, 4);
    let before = contents(&ctx, &table);
    let err = table.set(&mut ctx, 4, Value::ExternRef(Some(refs[0].clone()))).unwrap_err();
    assert_eq!(err.clone().to_trap(), Some(TrapCode::TableAccessOutOfBounds));
    assert_eq!(err.message(), "undefined element: out of bounds table access");
    let err = table.set(&mut ctx, u32::MAX, Value::ExternRef(None)).unwrap_err();
    assert_eq!(err.to_trap(), Some(TrapCode::TableAccessOutOfBounds));
    assert_eq!(contents(&ctx, &table), before);
    assert_eq!(before, vec![100, 101, 102, 103]);
}

#[test]
fn set_writes_one_element() {
    let mut ids = ContextIds::new();
    let mut ctx = session(&mut ids);
    let (table, refs) = numbered_table(&mut ctx, 4);
    table.set(&mut ctx, 2, Value::ExternRef(Some(refs[0].clone()))).unwrap();
    assert_eq!(contents(&ctx, &table), vec![100, 101, 100, 103]);
    table.set(&mut ctx, 0, Value::ExternRef(None)).unwrap();
    assert_eq!(contents(&ctx, &table), vec![0, 101, 100, 103]);
}

#[test]
fn set_refuses_another_kind_and_numbers() {
    let mut ids = ContextIds::new();
    let mut ctx = session(&mut ids);
    let (table, _) = numbered_table(&mut ctx, 2);
    let f = function(&mut ctx);
    let err = table.set(&mut ctx, 0, Value::FuncRef(Some(f))).unwrap_err();
    assert_eq!(err.to_trap(), Some(TrapCode::BadSignature));
    let err = table.set(&mut ctx, 0, Value::I64(1)).unwrap_err();
    assert_eq!(err.message(), "val is not reference");
    assert_eq!(contents(&ctx, &table), vec![100, 101]);
}

#[test]
fn set_refuses_a_value_of_another_context() {
    let mut ids = ContextIds::new();
    let mut one = session(&mut ids);
    let mut two = session(&mut ids);
    let (table, _) = numbered_table(&mut one, 3);
    let foreign = ExternRef::new(&mut two, 9);
    assert!(!foreign.is_from_context(&one));
    let err = table.set(&mut one, 1, Value::ExternRef(Some(foreign))).unwrap_err();
    assert_eq!(err.message(), "cannot pass Value across contexts");
    assert_eq!(contents(&one, &table), vec![100, 101, 102]);
}

#[test]
fn grow_returns_the_previous_size() {
    let mut ids = ContextIds::new();
    let mut ctx = session(&mut ids);
    let ty = TableType::new(Type::ExternRef, 2, Some(6));
    let table = Table::new(&mut ctx, ty, Value::ExternRef(None)).unwrap();
    let r = ExternRef::new(&mut ctx, 55);
    assert_eq!(table.grow(&mut ctx, 3, Value::ExternRef(Some(r.clone()))).unwrap(), 2);
    assert_eq!(table.size(&ctx), 5);
    assert_eq!(contents(&ctx, &table), vec![0, 0, 55, 55, 55]);
    assert_eq!(table.grow(&mut ctx, 0, Value::ExternRef(None)).unwrap(), 5);
    assert_eq!(table.grow(&mut ctx, 1, Value::ExternRef(None)).unwrap(), 5);
    assert_eq!(table.size(&ctx), 6);
}

#[test]
fn grow_beyond_the_maximum_grows_nothing() {
    let mut ids = ContextIds::new();
    let mut ctx = session(&mut ids);
    let ty = TableType::new(Type::ExternRef, 2, Some(4));
    let table = Table::new(&mut ctx, ty, Value::ExternRef(None)).unwrap();
    let err = table.grow(&mut ctx, 3, Value::ExternRef(None)).unwrap_err();
    assert_eq!(err.message(), "failed to grow table by `3`");
    assert_eq!(table.size(&ctx), 2);
    assert_eq!(table.grow(&mut ctx, 2, Value::ExternRef(None)).unwrap(), 2);
    assert_eq!(table.size(&ctx), 4);
    let err = table.grow(&mut ctx, 4294967295, Value::ExternRef(None)).unwrap_err();
    assert_eq!(err.message(), "failed to grow table by `4294967295`");
    assert_eq!(table.size(&ctx), 4);
}

#[test]
fn grow_without_maximum_stops_at_the_index_range() {
    let mut ids = ContextIds::new();
    let mut ctx = session(&mut ids);
    let ty = TableType::new(Type::FuncRef, 1, None);
    let table = Table::new(&mut ctx, ty, Value::FuncRef(None)).unwrap();
    let err = table.grow(&mut ctx, u32::MAX, Value::FuncRef(None)).unwrap_err();
    assert_eq!(err.message(), "failed to grow table by `4294967295`");
    assert_eq!(table.size(&ctx), 1);
}

#[test]
fn grow_refuses_init_of_another_kind() {
    let mut ids = ContextIds::new();
    let mut ctx = session(&mut ids);
    let ty = TableType::new(Type::FuncRef, 1, Some(10));
    let table = Table::new(&mut ctx, ty, Value::FuncRef(None)).unwrap();
    let err = table.grow(&mut ctx, 2, Value::ExternRef(None)).unwrap_err();
    assert_eq!(err.message(), "failed to grow table by `2`");
    assert_eq!(table.size(&ctx), 1);
    let err = table.grow(&mut ctx, 2, Value::I32(0)).unwrap_err();
    assert_eq!(err.message(), "val is not reference");
}

/// The copy that reads the source range into a buffer and then writes it.
fn reference_copy(table: &[u64], dst: usize, src: usize, len: usize) -> Vec<u64> {
    let buffer: Vec<u64> = table[src..src + len].to_vec();
    let mut out = table.to_vec();
    for (i, item) in buffer.into_iter().enumerate() {
        out[dst + i] = item;
    }
    out
}

#[test]
fn copy_within_one_table_moves_for_every_placement() {
    let mut ids = ContextIds::new();
    let n: u32 = 8;
    for dst in 0..n {
        for src in 0..n {
            for len in 0..=n {
                let mut ctx = session(&mut ids);
                let (table, _) = numbered_table(&mut ctx, n);
                let before = contents(&ctx, &table);
                let result = Table::copy(&mut ctx, &table, dst, &table, src, len);
                if dst + len <= n && src + len <= n {
                    assert!(result.is_ok());
                    let expected =
                        reference_copy(&before, dst as usize, src as usize, len as usize);
                    assert_eq!(contents(&ctx, &table), expected);
                } else {
                    let err = result.unwrap_err();
                    assert_eq!(err.to_trap(), Some(TrapCode::TableAccessOutOfBounds));
                    assert_eq!(contents(&ctx, &table), before);
                }
            }
        }
    }
}

#[test]
fn copy_within_overlapping_ranges() {
    let mut ids = ContextIds::new();
    let mut ctx = session(&mut ids);
    let (table, _) = numbered_table(&mut ctx, 8);
    Table::copy(&mut ctx, &table, 2, &table, 0, 5).unwrap();
    assert_eq!(contents(&ctx, &table), vec![100, 101, 100, 101, 102, 103, 104, 107]);
    Table::copy(&mut ctx, &table, 0, &table, 3, 5).unwrap();
    assert_eq!(contents(&ctx, &table), vec![101, 102, 103, 104, 107, 103, 104, 107]);
}

#[test]
fn copy_between_two_tables() {
    let mut ids = ContextIds::new();
    let mut ctx = session(&mut ids);
    let (src, _) = numbered_table(&mut ctx, 5);
    let ty = TableType::new(Type::ExternRef, 4, None);
    let dst = Table::new(&mut ctx, ty, Value::ExternRef(None)).unwrap();
    Table::copy(&mut ctx, &dst, 1, &src, 2, 3).unwrap();
    assert_eq!(contents(&ctx, &dst), vec![0, 102, 103, 104]);
    assert_eq!(contents(&ctx, &src), vec![100, 101, 102, 103, 104]);
    let err = Table::copy(&mut ctx, &dst, 2, &src, 0, 3).unwrap_err();
    assert_eq!(err.to_trap(), Some(TrapCode::TableAccessOutOfBounds));
    let err = Table::copy(&mut ctx, &dst, 0, &src, 4, 2).unwrap_err();
    assert_eq!(err.to_trap(), Some(TrapCode::TableAccessOutOfBounds));
    let err = Table::copy(&mut ctx, &dst, 0, &src, u32::MAX, 2).unwrap_err();
    assert_eq!(err.to_trap(), Some(TrapCode::TableAccessOutOfBounds));
    assert_eq!(contents(&ctx, &dst), vec![0, 102, 103, 104]);
    // The other order of the two slots.
    Table::copy(&mut ctx, &src, 0, &dst, 1, 2).unwrap();
    assert_eq!(contents(&ctx, &src), vec![102, 103, 102, 103, 104]);
}

#[test]
fn copy_between_tables_of_different_kinds_fails() {
    let mut ids = ContextIds::new();
    let mut ctx = session(&mut ids);
    let (src, _) = numbered_table(&mut ctx, 3);
    let dst = Table::new(&mut ctx, TableType::new(Type::FuncRef, 3, None), Value::FuncRef(None))
        .unwrap();
    let err = Table::copy(&mut ctx, &dst, 0, &src, 0, 2).unwrap_err();
    assert_eq!(err.to_trap(), Some(TrapCode::BadSignature));
    assert!(Table::copy(&mut ctx, &dst, 0, &src, 0, 0).is_ok());
    assert_eq!(dst.get(&ctx, 0), Some(Value::FuncRef(None)));
}

#[test]
fn copy_across_contexts_is_refused() {
    let mut ids = ContextIds::new();
    let mut one = session(&mut ids);
    let mut two = session(&mut ids);
    let (t1, _) = numbered_table(&mut one, 4);
    let (t2, _) = numbered_table(&mut two, 4);
    assert!(t1.is_from_context(&one));
    assert!(!t2.is_from_context(&one));
    let err = Table::copy(&mut one, &t1, 0, &t2, 1, 2).unwrap_err();
    assert_eq!(err.message(), "cross-`Context` table copies are not supported");
    let err = Table::copy(&mut one, &t2, 0, &t1, 1, 2).unwrap_err();
    assert_eq!(err.message(), "cross-`Context` table copies are not supported");
    assert_eq!(contents(&one, &t1), vec![100, 101, 102, 103]);
    assert_eq!(contents(&two, &t2), vec![100, 101, 102, 103]);
}

#[test]
fn value_and_element_conversions() {
    let mut ids = ContextIds::new();
    let mut ctx = session(&mut ids);
    let f = function(&mut ctx);
    let e = ExternRef::new(&mut ctx, 3);
    let item = value_to_table_element(&ctx, Value::FuncRef(Some(f.clone()))).unwrap();
    assert_eq!(item, TableElement::FuncRef(Some(f.vm_funcref())));
    assert_eq!(value_from_table_element(&ctx, item), Value::FuncRef(Some(f)));
    let item = value_to_table_element(&ctx, Value::ExternRef(Some(e.clone()))).unwrap();
    assert_eq!(item, TableElement::ExternRef(Some(e.vm_externref())));
    assert_eq!(value_from_table_element(&ctx, item), Value::ExternRef(Some(e)));
    assert_eq!(
        value_to_table_element(&ctx, Value::FuncRef(None)).unwrap(),
        TableElement::FuncRef(None)
    );
    assert_eq!(
        value_from_table_element(&ctx, TableElement::ExternRef(None)),
        Value::ExternRef(None)
    );
    assert_eq!(
        value_to_table_element(&ctx, Value::V128(1)).unwrap_err().message(),
        "val is not reference"
    );
}

#[test]
fn storage_operations() {
    let ty = TableType::new(Type::FuncRef, 2, Some(3));
    let mut table = VMTable::new(&ty, &TableStyle::CallerChecksSignature).unwrap();
    assert_eq!(table.size(), 2);
    assert_eq!(*table.ty(), ty);
    assert_eq!(*table.style(), TableStyle::CallerChecksSignature);
    assert_eq!(table.get(1), Some(TableElement::FuncRef(None)));
    assert_eq!(table.get(2), None);
    assert_eq!(table.grow(2, TableElement::FuncRef(None)), None);
    assert_eq!(table.grow(1, TableElement::FuncRef(None)), Some(2));
    assert_eq!(table.size(), 3);
    assert!(set_table_item(&mut table, 3, TableElement::FuncRef(None)).is_err());
    assert!(set_table_item(&mut table, 2, TableElement::FuncRef(None)).is_ok());
    let externs = VMTable::new(
        &TableType::new(Type::ExternRef, 1, None),
        &TableStyle::CallerChecksSignature,
    )
    .unwrap();
    assert_eq!(externs.get(0), Some(TableElement::ExternRef(None)));
    assert_eq!(
        VMTable::new(&TableType::new(Type::V128, 0, None), &TableStyle::CallerChecksSignature)
            .unwrap_err(),
        "tables of types other than funcref or externref (V128)"
    );
}

#[test]
fn table_handles_share_the_slot() {
    let mut ids = ContextIds::new();
    let mut ctx = session(&mut ids);
    let (table, refs) = numbered_table(&mut ctx, 2);
    let other = table.clone();
    assert_eq!(table, other);
    other.set(&mut ctx, 0, Value::ExternRef(Some(refs[1].clone()))).unwrap();
    assert_eq!(contents(&ctx, &table), vec![101, 101]);
}
