use my_rust_library::paths::parent_directory;
use my_rust_library::toolchain::{
    build_script_lines, candidate_directories, directive_line, emit_include_path,
    emit_link_directives, library_directory, rerun_directive, resolve, ConfigVar, LinkDirective,
    ResolveError, ToolchainConfig,
};

fn config(prefix: Option<&str>, libclang: Option<&str>) -> ToolchainConfig {
    ToolchainConfig {
        llvm_prefix: prefix.map(|s| s.to_string()),
        libclang_path: libclang.map(|s| s.to_string()),
    }
}

fn missing_var(r: Result<my_rust_library::toolchain::ToolchainLocation, ResolveError>) -> ConfigVar {
    match r {
        Err(ResolveError::ConfigurationMissing(v)) => v,
        other => panic!("expected ConfigurationMissing, got {:?}", other),
    }
}

#[test]
fn resolve_existing_directories() {
    let c = config(Some("/opt/llvm-12"), Some("/usr/lib/llvm-12/lib"));
    let loc = resolve(&c, true, true).unwrap();
    assert_eq!(loc.library_version, "12");
    assert_eq!(loc.library_directory, "/opt/llvm-12/lib");
    assert_eq!(loc.frontend_library_directory, "/usr/lib/llvm-12/lib");
}

#[test]
fn four_directives_in_fixed_order() {
    let c = config(Some("/opt/llvm"), Some("/opt/clang/lib"));
    let loc = resolve(&c, true, true).unwrap();
    let ds = emit_link_directives(&loc);
    assert_eq!(ds.len(), 4);
    assert!(matches!(&ds[0], LinkDirective::SearchPath(p) if p == "/opt/llvm/lib"));
    assert!(matches!(&ds[1], LinkDirective::SearchPath(p) if p == "/opt/clang/lib"));
    assert!(matches!(&ds[2], LinkDirective::LinkLibrary(n) if n == "LLVM-12"));
    assert!(matches!(&ds[3], LinkDirective::LinkLibrary(n) if n == "clang"));
}

#[test]
fn emitting_twice_gives_the_same_directives() {
    let c = config(Some("/opt/llvm"), Some("/opt/clang/lib"));
    let loc = resolve(&c, true, true).unwrap();
    let a: Vec<String> = emit_link_directives(&loc).iter().map(directive_line).collect();
    let b: Vec<String> = emit_link_directives(&loc).iter().map(directive_line).collect();
    assert_eq!(a, b);
}

#[test]
fn missing_llvm_prefix() {
    let c = config(None, Some("/opt/clang/lib"));
    assert_eq!(missing_var(resolve(&c, true, true)), ConfigVar::LlvmPrefix);
    assert_eq!(ConfigVar::LlvmPrefix.variable_name(), "LLVM_SYS_120_PREFIX");
}

#[test]
fn missing_libclang_path() {
    let c = config(Some("/opt/llvm"), None);
    assert_eq!(missing_var(resolve(&c, true, true)), ConfigVar::LibclangPath);
    assert_eq!(ConfigVar::LibclangPath.variable_name(), "LIBCLANG_PATH");
}

#[test]
fn both_missing_names_llvm_prefix_first() {
    let c = config(None, None);
    assert_eq!(missing_var(resolve(&c, false, false)), ConfigVar::LlvmPrefix);
}

#[test]
fn empty_value_counts_as_missing() {
    let c = config(Some(""), Some("/opt/clang/lib"));
    assert_eq!(missing_var(resolve(&c, true, true)), ConfigVar::LlvmPrefix);
    let c = config(Some("/opt/llvm"), Some(""));
    assert_eq!(missing_var(resolve(&c, true, true)), ConfigVar::LibclangPath);
}

#[test]
fn missing_value_emits_no_lines() {
    let c = config(None, Some("/opt/clang/lib"));
    match build_script_lines(&c, true, true) {
        Err(ResolveError::ConfigurationMissing(ConfigVar::LlvmPrefix)) => {}
        other => panic!("unexpected {:?}", other),
    }
}

#[test]
fn missing_library_directory_is_named() {
    let c = config(Some("/nowhere/llvm"), Some("/opt/clang/lib"));
    match resolve(&c, false, true) {
        Err(ResolveError::ToolchainNotFound(p)) => assert_eq!(p, "/nowhere/llvm/lib"),
        other => panic!("unexpected {:?}", other),
    }
}

#[test]
fn missing_frontend_directory_is_named() {
    let c = config(Some("/opt/llvm"), Some("/nowhere/clang"));
    match resolve(&c, true, false) {
        Err(ResolveError::ToolchainNotFound(p)) => assert_eq!(p, "/nowhere/clang"),
        other => panic!("unexpected {:?}", other),
    }
}

#[test]
fn candidate_directories_of_config() {
    let c = config(Some("/opt/llvm"), Some("/opt/clang/lib"));
    let (lib, frontend) = candidate_directories(&c).unwrap();
    assert_eq!(lib, "/opt/llvm/lib");
    assert_eq!(frontend, "/opt/clang/lib");
    assert!(candidate_directories(&config(Some("/opt/llvm"), None)).is_err());
}

#[test]
fn library_directory_appends_lib() {
    assert_eq!(library_directory("/opt/llvm"), "/opt/llvm/lib");
    assert_eq!(library_directory(""), "/lib");
}

#[test]
fn directive_lines_text() {
    assert_eq!(
        directive_line(&LinkDirective::SearchPath("/opt/llvm/lib".to_string())),
        "cargo:rustc-link-search=native=/opt/llvm/lib"
    );
    assert_eq!(
        directive_line(&LinkDirective::LinkLibrary("LLVM-12".to_string())),
        "cargo:rustc-link-lib=LLVM-12"
    );
    assert_eq!(rerun_directive(), "cargo:rerun-if-changed=build.rs");
}

#[test]
fn build_lines_for_existing_toolchain() {
    let c = config(Some("/opt/llvm"), Some("/usr/lib/llvm-12/lib"));
    let lines = build_script_lines(&c, true, true).unwrap();
    assert_eq!(
        lines,
        vec![
            "cargo:rustc-link-search=native=/opt/llvm/lib".to_string(),
            "cargo:rustc-link-search=native=/usr/lib/llvm-12/lib".to_string(),
            "cargo:rustc-link-lib=LLVM-12".to_string(),
            "cargo:rustc-link-lib=clang".to_string(),
            "cargo:include=/usr/lib/llvm-12".to_string(),
        ]
    );
}

#[test]
fn build_lines_fail_without_parent() {
    let c = config(Some("/opt/llvm"), Some("clang"));
    match build_script_lines(&c, true, true) {
        Err(ResolveError::ToolchainNotFound(p)) => assert_eq!(p, "clang"),
        other => panic!("unexpected {:?}", other),
    }
}

#[test]
fn include_path_is_parent() {
    assert_eq!(emit_include_path("/usr/lib/llvm-12/lib").unwrap(), "/usr/lib/llvm-12");
    assert_eq!(emit_include_path("/usr/lib/llvm-12/lib/").unwrap(), "/usr/lib/llvm-12");
    assert!(matches!(emit_include_path("/"), Err(ResolveError::ToolchainNotFound(p)) if p == "/"));
}

#[test]
fn parent_directory_cases() {
    assert_eq!(parent_directory("/a/b"), Some("/a".to_string()));
    assert_eq!(parent_directory("/a//b//"), Some("/a".to_string()));
    assert_eq!(parent_directory("a/b"), Some("a".to_string()));
    assert_eq!(parent_directory("/a"), Some("/".to_string()));
    assert_eq!(parent_directory("//a"), Some("/".to_string()));
    assert_eq!(parent_directory("a"), None);
    assert_eq!(parent_directory("/"), None);
    assert_eq!(parent_directory("//"), None);
    assert_eq!(parent_directory(""), None);
}
