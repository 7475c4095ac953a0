use my_rust_library::bridge::{
    greet, invoke, load_module, my_rust_library, BridgeError, CallError, ExportedSymbol, HostValue,
    LoadState, ModuleRegistry, NativeFn,
};

fn str_arg(s: &str) -> Vec<HostValue> {
    vec![HostValue::Str(s.to_string())]
}

fn export(name: &str) -> ExportedSymbol {
    ExportedSymbol { host_visible_name: name.to_string(), native_implementation: NativeFn::Greet }
}

#[test]
fn greet_world() {
    assert_eq!(greet("World"), "Hello, World!");
}

#[test]
fn greet_empty_name() {
    assert_eq!(greet(""), "Hello, !");
}

#[test]
fn library_module_loads_with_greet() {
    let mut reg = ModuleRegistry::new();
    let h = my_rust_library(&mut reg).unwrap();
    assert_eq!(h.module_name(), "my_rust_library");
    assert_eq!(h.state(), LoadState::Loaded);
    assert_eq!(h.visible_symbols(), vec!["greet".to_string()]);
    assert!(reg.is_registered("my_rust_library"));
}

#[test]
fn calling_exported_greet() {
    let mut reg = ModuleRegistry::new();
    let h = my_rust_library(&mut reg).unwrap();
    match h.call("greet", &str_arg("World")) {
        Ok(HostValue::Str(s)) => assert_eq!(s, "Hello, World!"),
        other => panic!("unexpected {:?}", other),
    }
    match h.call("greet", &str_arg("")) {
        Ok(HostValue::Str(s)) => assert_eq!(s, "Hello, !"),
        other => panic!("unexpected {:?}", other),
    }
}

#[test]
fn second_load_conflicts() {
    let mut reg = ModuleRegistry::new();
    assert!(my_rust_library(&mut reg).is_ok());
    match my_rust_library(&mut reg) {
        Err(BridgeError::ModuleNameConflict(n)) => assert_eq!(n, "my_rust_library"),
        Err(e) => panic!("unexpected {:?}", e),
        Ok(_) => panic!("second load succeeded"),
    }
}

#[test]
fn define_module_name_conflict() {
    let mut reg = ModuleRegistry::new();
    assert!(reg.define_module("m").is_ok());
    assert!(reg.define_module("n").is_ok());
    assert!(matches!(reg.define_module("m"), Err(BridgeError::ModuleNameConflict(n)) if n == "m"));
}

#[test]
fn duplicate_export_fails_and_keeps_first() {
    let mut reg = ModuleRegistry::new();
    let mut h = reg.define_module("m").unwrap();
    assert!(h.export_function("greet".to_string(), NativeFn::Greet).is_ok());
    match h.export_function("greet".to_string(), NativeFn::Greet) {
        Err(BridgeError::DuplicateExport(n)) => assert_eq!(n, "greet"),
        other => panic!("unexpected {:?}", other),
    }
    assert_eq!(h.registered_symbols(), vec!["greet".to_string()]);
    assert_eq!(h.state(), LoadState::LoadFailed);
}

#[test]
fn failed_load_exposes_nothing() {
    let mut reg = ModuleRegistry::new();
    let mut h = reg.define_module("m").unwrap();
    h.export_function("a".to_string(), NativeFn::Greet).unwrap();
    assert!(h.export_function("a".to_string(), NativeFn::Greet).is_err());
    assert!(matches!(
        h.export_function("b".to_string(), NativeFn::Greet),
        Err(BridgeError::RegistrationClosed)
    ));
    h.finish_load();
    assert_eq!(h.state(), LoadState::LoadFailed);
    assert!(h.visible_symbols().is_empty());
    assert_eq!(h.registered_symbols(), vec!["a".to_string()]);
    assert_eq!(h.lookup("a"), None);
    assert!(matches!(h.call("a", &str_arg("x")), Err(CallError::ModuleNotLoaded)));
}

#[test]
fn loaded_module_exposes_all_in_order() {
    let mut reg = ModuleRegistry::new();
    let exports = vec![export("first"), export("second"), export("third")];
    let h = load_module(&mut reg, "m", &exports).unwrap();
    assert_eq!(
        h.visible_symbols(),
        vec!["first".to_string(), "second".to_string(), "third".to_string()]
    );
    assert_eq!(h.lookup("second"), Some(NativeFn::Greet));
}

#[test]
fn load_module_reports_first_duplicate() {
    let mut reg = ModuleRegistry::new();
    let exports = vec![export("a"), export("b"), export("b"), export("a")];
    match load_module(&mut reg, "m", &exports) {
        Err(BridgeError::DuplicateExport(n)) => assert_eq!(n, "b"),
        Err(e) => panic!("unexpected {:?}", e),
        Ok(_) => panic!("load succeeded"),
    }
    assert!(reg.is_registered("m"));
}

#[test]
fn registration_closed_after_load() {
    let mut reg = ModuleRegistry::new();
    let mut h = reg.define_module("m").unwrap();
    assert!(h.visible_symbols().is_empty());
    h.export_function("a".to_string(), NativeFn::Greet).unwrap();
    h.finish_load();
    assert!(matches!(
        h.export_function("b".to_string(), NativeFn::Greet),
        Err(BridgeError::RegistrationClosed)
    ));
    assert_eq!(h.visible_symbols(), vec!["a".to_string()]);
}

#[test]
fn unknown_symbol_call() {
    let mut reg = ModuleRegistry::new();
    let h = my_rust_library(&mut reg).unwrap();
    assert_eq!(h.call("farewell", &str_arg("x")), Err(CallError::UnknownSymbol("farewell".to_string())));
}

#[test]
fn argument_type_mismatch() {
    assert_eq!(invoke(NativeFn::Greet, &vec![HostValue::Int(3)]), Err(CallError::ArgumentTypeMismatch));
    assert_eq!(invoke(NativeFn::Greet, &vec![]), Err(CallError::ArgumentTypeMismatch));
    assert_eq!(
        invoke(NativeFn::Greet, &vec![HostValue::Str("a".to_string()), HostValue::Bool(true)]),
        Err(CallError::ArgumentTypeMismatch)
    );
    assert_eq!(invoke(NativeFn::Greet, &vec![HostValue::Nothing]), Err(CallError::ArgumentTypeMismatch));
}
