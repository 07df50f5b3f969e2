use wasmer_core::emscripten::generate_emscripten_env;
use wasmer_core::import_object::{HostFunction, ImportObject, ImportValue};

#[test]
fn test_putchar() {
    let import_object = generate_emscripten_env();
    let main = match import_object.get("env", "putchar") {
        Some(&ImportValue::Func(function)) => function,
        _ => panic!("Function not found"),
    };
    assert_eq!(main, HostFunction::Putchar);
}

#[test]
fn test_print() {
    let import_object = generate_emscripten_env();
    let main = match import_object.get("env", "printf") {
        Some(&ImportValue::Func(function)) => function,
        _ => panic!("Function not found"),
    };
    assert_eq!(main, HostFunction::Printf);
}

#[test]
fn env_globals_have_their_values() {
    let env = generate_emscripten_env();
    assert_eq!(env.get("env", "global1"), Some(&ImportValue::Global(24)));
    assert_eq!(env.get("env", "global2"), Some(&ImportValue::Global(50)));
    assert_eq!(env.get("env", "global3"), Some(&ImportValue::Global(67)));
}

#[test]
fn env_binds_only_under_env() {
    let env = generate_emscripten_env();
    assert_eq!(env.get("host", "putchar"), None);
    assert_eq!(env.get("env", "puts"), None);
    assert_eq!(env.get("", ""), None);
}

#[test]
fn import_object_set_replaces() {
    let mut object: ImportObject<&str, &str> = ImportObject::new();
    assert_eq!(object.get("env", "x"), None);
    object.set("env", "x", ImportValue::Global(1));
    object.set("env", "y", ImportValue::Global(2));
    object.set("env", "x", ImportValue::Global(3));
    assert_eq!(object.get("env", "x"), Some(&ImportValue::Global(3)));
    assert_eq!(object.get("env", "y"), Some(&ImportValue::Global(2)));
    assert_eq!(object.get("other", "x"), None);
}
