use nrc::ast::ImportDecl;
use nrc::error::Location;
use nrc::error::CompilerError;
use nrc::semantic::{ExportType, ModuleResolver};

#[test]
fn module_path_without_quotes_is_kept() {
    let resolver = ModuleResolver::new("/base".to_string());
    assert_eq!(resolver.resolve_module_path("\"math\"").unwrap(), "math");
    assert_eq!(resolver.resolve_module_path("io/file").unwrap(), "io/file");
    assert_eq!(resolver.resolve_module_path("\"\"").unwrap(), "");
}

#[test]
fn relative_module_path_joins_base() {
    let resolver = ModuleResolver::new("/base".to_string());
    let expected = std::path::Path::new("/base").join("./util").to_string_lossy().to_string();
    assert_eq!(resolver.resolve_module_path("\"./util\"").unwrap(), expected);
    let std_expected = std::path::Path::new("/base").join("std/fmt").to_string_lossy().to_string();
    assert_eq!(resolver.resolve_module_path("std/fmt").unwrap(), std_expected);
    assert_ne!(resolver.resolve_module_path("../up").unwrap(), "../up");
}

#[test]
fn loaded_module_exports_its_declarations() {
    let resolver = ModuleResolver::new("/base".to_string());
    let module = resolver
        .load_module("lib.n", "fn add() { } const PI = 3; fn add() { } struct Point { x int }".to_string())
        .unwrap();
    assert_eq!(module.path, "lib.n");
    assert_eq!(module.declarations.len(), 4);
    assert_eq!(module.exports.len(), 3);
    let add = module.exports.iter().find(|(n, _)| n == "add").unwrap();
    assert_eq!(add.1.symbol_type, ExportType::Function);
    assert_eq!(add.1.declaration.location(), module.declarations[2].location());
    let pi = module.exports.iter().find(|(n, _)| n == "PI").unwrap();
    assert_eq!(pi.1.symbol_type, ExportType::Constant);
    let point = module.exports.iter().find(|(n, _)| n == "Point").unwrap();
    assert_eq!(point.1.symbol_type, ExportType::Struct);
}

#[test]
fn unparsable_module_is_reported() {
    let resolver = ModuleResolver::new("/base".to_string());
    match resolver.load_module("bad.n", "fn main( {".to_string()) {
        Err(CompilerError::Internal { message }) => {
            assert!(message.starts_with("Failed to parse module 'bad.n': Syntax error at "));
        }
        other => panic!("expected an internal error, got {:?}", other.map(|m| m.path)),
    }
}

#[test]
fn inserted_module_is_found() {
    let mut resolver = ModuleResolver::new("/base".to_string());
    let module = resolver.load_module("a.n", "fn f() { }".to_string()).unwrap();
    resolver.insert_module("a.n".to_string(), module);
    assert!(resolver.get_module("a.n").is_some());
    assert!(resolver.get_module("b.n").is_none());
    let again = resolver.load_module("a.n", "fn g() { } fn h() { }".to_string()).unwrap();
    resolver.insert_module("a.n".to_string(), again);
    assert_eq!(resolver.get_modules().len(), 1);
    assert_eq!(resolver.get_module("a.n").unwrap().declarations.len(), 2);
}

#[test]
fn resolve_import_loads_a_module_once() {
    let mut resolver = ModuleResolver::new("/base".to_string());
    let import = ImportDecl {
        path: "\"shapes\"".to_string(),
        items: None,
        alias: None,
        location: Location::new(1, 1, 0),
    };
    resolver.resolve_import(&import, "fn area() { return 1; }".to_string()).unwrap();
    let module = resolver.get_module("shapes").unwrap();
    assert_eq!(module.path, "shapes");
    assert_eq!(module.declarations.len(), 1);
    assert_eq!(module.exports.len(), 1);
    resolver.resolve_import(&import, "fn other() { }".to_string()).unwrap();
    assert_eq!(resolver.get_modules().len(), 1);
    assert_eq!(resolver.get_module("shapes").unwrap().exports[0].0, "area");
}

#[test]
fn joined_import_paths_keep_base_and_path() {
    let resolver = ModuleResolver::new("project/src".to_string());
    let joined = resolver.resolve_module_path("\"../lib/util\"").unwrap();
    assert!(joined.starts_with("project/src"));
    assert!(joined.ends_with("../lib/util"));
    assert!(joined.len() > "project/src".len() + "../lib/util".len());
}
