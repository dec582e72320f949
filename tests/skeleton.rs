use semantic_skeletonizer::json::quote;
use semantic_skeletonizer::skeleton::{extract_ir, is_style_import, Bucket, FileSkeleton, ItemKind, TopItem};

fn item(kind: ItemKind, text: &str) -> TopItem {
    TopItem { kind, text: text.to_string(), source: None }
}

fn import(text: &str, source: &str) -> TopItem {
    TopItem { kind: ItemKind::Import, text: text.to_string(), source: Some(source.to_string()) }
}

#[test]
fn style_imports_are_recognised() {
    assert!(is_style_import("\"./x.css\""));
    assert!(is_style_import("\"./theme.scss\""));
    assert!(is_style_import("\"./logo.svg\""));
    assert!(is_style_import("\"my.css-loader\""));
    assert!(!is_style_import("\"./x\""));
    assert!(!is_style_import("\"./x.CSS\""));
    assert!(!is_style_import(""));
}

#[test]
fn startup_file_skeleton() {
    let items = vec![
        import("import \"./x.css\";", "\"./x.css\""),
        item(ItemKind::ExportDecl, "export function f(x: number) {}"),
    ];
    let sk = extract_ir(&items);
    assert!(sk.imports.is_empty());
    assert_eq!(sk.exports, vec!["export function f(x: number) {}".to_string()]);
    assert!(sk.functions.is_empty());
    assert!(sk.interfaces.is_empty());
    assert!(sk.classes.is_empty());
    assert!(sk.variables.is_empty());
}

#[test]
fn items_route_by_kind_in_source_order() {
    let items = vec![
        import("import a from \"./a\";", "\"./a\""),
        item(ItemKind::Function, "function f() {}"),
        item(ItemKind::Statement, "f();"),
        item(ItemKind::Class, "class C {\n    m() {}\n}"),
        item(ItemKind::ImportEquals, "import fs = require(\"fs\");"),
        item(ItemKind::Interface, "interface I {}"),
        item(ItemKind::TypeAlias, "type T = number;"),
        item(ItemKind::Enum, "enum E {}"),
        item(ItemKind::Module, "namespace N {}"),
        item(ItemKind::Variable, "const g = ()=>{};"),
        item(ItemKind::Using, "using r = open();"),
        item(ItemKind::Function, "function h() {}"),
        item(ItemKind::ExportNamed, "export { f };"),
        item(ItemKind::ExportAll, "export * from \"./b\";"),
        import("import \"./logo.svg\";", "\"./logo.svg\""),
    ];
    let sk = extract_ir(&items);
    assert_eq!(sk.imports, vec!["import a from \"./a\";".to_string(), "import fs = require(\"fs\");".to_string()]);
    assert_eq!(sk.functions, vec!["function f() {}".to_string(), "function h() {}".to_string()]);
    assert_eq!(sk.classes, vec!["class C {\n    m() {}\n}".to_string()]);
    assert_eq!(sk.interfaces.len(), 4);
    assert_eq!(sk.interfaces[3], "namespace N {}");
    assert_eq!(sk.variables, vec!["const g = ()=>{};".to_string()]);
    assert_eq!(sk.exports, vec!["export { f };".to_string(), "export * from \"./b\";".to_string()]);
    let total = sk.imports.len() + sk.exports.len() + sk.functions.len() + sk.interfaces.len()
        + sk.classes.len() + sk.variables.len();
    assert_eq!(total, 12);
}

#[test]
fn empty_module_gives_empty_skeleton() {
    let sk = extract_ir(&vec![]);
    assert_eq!(
        sk.to_json(),
        "{\"imports\":[],\"exports\":[],\"functions\":[],\"interfaces\":[],\"classes\":[],\"variables\":[]}"
    );
}

#[test]
fn item_kinds_map_to_fields() {
    assert_eq!(ItemKind::ExportDefaultExpr.bucket(), Some(Bucket::Exports));
    assert_eq!(ItemKind::Using.bucket(), None);
    assert_eq!(ItemKind::Statement.bucket(), None);
    assert_eq!(ItemKind::ImportEquals.bucket(), Some(Bucket::Imports));
    assert_eq!(ItemKind::Enum.bucket(), Some(Bucket::Interfaces));
}

#[test]
fn skeleton_json_escapes_strings() {
    let mut sk = FileSkeleton::empty();
    sk.push(Bucket::Functions, "function f(s = \"a\\b\") {}".to_string());
    sk.push(Bucket::Functions, "function g() {}".to_string());
    let json = sk.to_json();
    assert_eq!(
        json,
        "{\"imports\":[],\"exports\":[],\"functions\":[\"function f(s = \\\"a\\\\b\\\") {}\",\"function g() {}\"],\"interfaces\":[],\"classes\":[],\"variables\":[]}"
    );
    let v: serde_json::Value = serde_json::from_str(&json).unwrap();
    assert_eq!(v["functions"][0], "function f(s = \"a\\b\") {}");
}

#[test]
fn quote_writes_a_json_literal() {
    assert_eq!(quote("a\"b\n"), "\"a\\\"b\\n\"");
    assert_eq!(quote(""), "\"\"");
}

#[test]
fn style_import_equals_is_dropped() {
    let items = vec![
        TopItem {
            kind: ItemKind::ImportEquals,
            text: "import styles = require(\"./a.css\");".to_string(),
            source: Some("\"./a.css\"".to_string()),
        },
        TopItem {
            kind: ItemKind::ImportEquals,
            text: "import fs = require(\"fs\");".to_string(),
            source: Some("\"fs\"".to_string()),
        },
        item(ItemKind::ImportEquals, "import A = B.C;"),
    ];
    let sk = extract_ir(&items);
    assert_eq!(sk.imports, vec!["import fs = require(\"fs\");".to_string(), "import A = B.C;".to_string()]);
}

#[test]
fn quote_escapes_control_characters() {
    assert_eq!(quote("\u{1}\u{8}\t\u{c}\r\u{1f}\\"), "\"\\u0001\\b\\t\\f\\r\\u001f\\\\\"");
    assert_eq!(quote("\u{7f}\u{e9}"), "\"\u{7f}\u{e9}\"");
}
