use semantic_skeletonizer::index::{is_source_extension, skeletons_of, AppState};
use semantic_skeletonizer::server::{
    change_notification, implementation_line, malformed_line, resources, Arguments, Outcome,
    Params, Request, RpcError,
};
use semantic_skeletonizer::skeleton::{ItemKind, TopItem};

fn item(kind: ItemKind, text: &str) -> TopItem {
    TopItem { kind, text: text.to_string(), source: None }
}

fn request(id: Option<&str>, method: &str, params: Option<Params>) -> Request {
    Request { id: id.map(|s| s.to_string()), method: method.to_string(), params }
}

fn read(uri: &str) -> Request {
    request(
        Some("1"),
        "resources/read",
        Some(Params { uri: Some(uri.to_string()), name: None, arguments: None }),
    )
}

fn call(tool: &str, file_path: &str) -> Request {
    request(
        Some("7"),
        "tools/call",
        Some(Params {
            uri: None,
            name: Some(tool.to_string()),
            arguments: Some(Arguments {
                file_path: Some(file_path.to_string()),
                target_node: Some("f".to_string()),
            }),
        }),
    )
}

fn line(o: Outcome) -> String {
    match o {
        Outcome::Line(s) => s,
        Outcome::Silent => panic!("no response"),
        Outcome::Implementation { .. } => panic!("a reparse was asked for"),
    }
}

fn json(s: &str) -> serde_json::Value {
    serde_json::from_str(s).unwrap()
}

fn state_with_a() -> AppState {
    let state = AppState::new();
    let changed = state.index_batch(vec![(
        "./a.ts".to_string(),
        vec![
            TopItem {
                kind: ItemKind::Import,
                text: "import \"./x.css\";".to_string(),
                source: Some("\"./x.css\"".to_string()),
            },
            item(ItemKind::ExportDecl, "export function f(x: number) {}"),
        ],
    )]);
    assert!(changed);
    state
}

#[test]
fn startup_with_one_file() {
    let state = state_with_a();
    let out = line(state.respond(&read("skeleton://project/file/./a.ts")));
    let v = json(&out);
    assert_eq!(v["id"], 1);
    let contents = &v["result"]["contents"][0];
    assert_eq!(contents["uri"], "skeleton://project/file/./a.ts");
    assert_eq!(contents["mimeType"], "application/json");
    let sk = json(contents["text"].as_str().unwrap());
    assert_eq!(sk["imports"], serde_json::Value::Array(vec![]));
    assert_eq!(sk["exports"][0], "export function f(x: number) {}");
    assert_eq!(sk["exports"].as_array().unwrap().len(), 1);
    assert_eq!(sk["functions"], serde_json::Value::Array(vec![]));
    assert_eq!(sk["classes"], serde_json::Value::Array(vec![]));
    assert_eq!(sk["interfaces"], serde_json::Value::Array(vec![]));
    assert_eq!(sk["variables"], serde_json::Value::Array(vec![]));
}

#[test]
fn empty_project_global_read() {
    let state = AppState::new();
    let out = line(state.respond(&read("skeleton://project/global")));
    assert_eq!(
        out,
        "{\"jsonrpc\":\"2.0\",\"id\":1,\"error\":{\"code\":-32603,\"message\":\"Graph is empty. No files scanned or found.\"}}"
    );
}

#[test]
fn unknown_uri_scheme() {
    let state = state_with_a();
    let out = line(state.respond(&read("file:///etc/passwd")));
    assert_eq!(
        out,
        "{\"jsonrpc\":\"2.0\",\"id\":1,\"error\":{\"code\":-32602,\"message\":\"Invalid URI scheme for resource.\"}}"
    );
}

#[test]
fn file_uri_not_indexed() {
    let state = state_with_a();
    let v = json(&line(state.respond(&read("skeleton://project/file/./b.ts"))));
    assert_eq!(v["error"]["code"], -32602);
    assert_eq!(v["error"]["message"], "File not found in graph.");
}

#[test]
fn live_update_adds_function() {
    let state = AppState::new();
    state.index_batch(vec![("./a.ts".to_string(), vec![item(ItemKind::Function, "function f() {}")])]);
    let changed = state.index_batch(vec![(
        "./a.ts".to_string(),
        vec![item(ItemKind::Function, "function f() {}"), item(ItemKind::Function, "function g() {}")],
    )]);
    assert!(changed);
    assert_eq!(
        change_notification(),
        "{\"jsonrpc\":\"2.0\",\"method\":\"notifications/resources/updated\",\"params\":{\"uri\":\"skeleton://project/global\"}}"
    );
    let v = json(&line(state.respond(&read("skeleton://project/file/./a.ts"))));
    let sk = json(v["result"]["contents"][0]["text"].as_str().unwrap());
    assert_eq!(sk["functions"][0], "function f() {}");
    assert_eq!(sk["functions"][1], "function g() {}");
    let n = json(&change_notification());
    assert_eq!(n["params"]["uri"], "skeleton://project/global");
    assert!(n.get("id").is_none());
}

#[test]
fn empty_batch_changes_nothing() {
    let state = AppState::new();
    assert!(!state.index_batch(vec![]));
    assert!(state.snapshot().is_empty());
}

#[test]
fn tool_call_miss() {
    let state = state_with_a();
    let out = line(state.respond(&call("list_functions", "nope.ts")));
    assert_eq!(
        out,
        "{\"jsonrpc\":\"2.0\",\"id\":7,\"error\":{\"code\":-32602,\"message\":\"File not found in graph.\"}}"
    );
}

#[test]
fn list_functions_joins_lines() {
    let state = AppState::new();
    state.index_batch(vec![(
        "b.ts".to_string(),
        vec![item(ItemKind::Function, "function f() {}"), item(ItemKind::Function, "function g() {}")],
    )]);
    let v = json(&line(state.respond(&call("list_functions", "b.ts"))));
    assert_eq!(v["result"]["content"][0]["type"], "text");
    assert_eq!(v["result"]["content"][0]["text"], "function f() {}\nfunction g() {}");
}

#[test]
fn unknown_tool_and_method() {
    let state = AppState::new();
    let v = json(&line(state.respond(&call("frobnicate", "a.ts"))));
    assert_eq!(v["error"]["code"], -32601);
    assert_eq!(v["error"]["message"], "Method not found");
    let v = json(&line(state.respond(&request(Some("\"x\""), "ping", None))));
    assert_eq!(v["id"], "x");
    assert_eq!(v["error"]["code"], -32601);
}

#[test]
fn get_implementation_asks_for_reparse() {
    let state = AppState::new();
    match state.respond(&call("get_implementation", "src/a.ts")) {
        Outcome::Implementation { id, file_path } => {
            assert_eq!(id, "7");
            assert_eq!(file_path, "src/a.ts");
        },
        _ => panic!("expected a reparse"),
    }
    let ok = json(&implementation_line("7", Some("{\"body\":[]}".to_string())));
    assert_eq!(ok["result"]["content"][0]["text"], "{\"body\":[]}");
    let err = implementation_line("7", None);
    assert_eq!(
        err,
        "{\"jsonrpc\":\"2.0\",\"id\":7,\"error\":{\"code\":-32603,\"message\":\"Failed to extract implementation\"}}"
    );
}

#[test]
fn notification_gets_no_response() {
    let state = AppState::new();
    assert!(matches!(state.respond(&request(None, "initialize", None)), Outcome::Silent));
    assert!(matches!(state.respond(&request(None, "tools/call", None)), Outcome::Silent));
}

#[test]
fn malformed_input() {
    assert_eq!(
        malformed_line("not json").unwrap(),
        "{\"jsonrpc\":\"2.0\",\"id\":null,\"error\":{\"code\":-32700,\"message\":\"Parse error\"}}"
    );
    assert!(malformed_line("").is_none());
    assert!(malformed_line("  \t\r\n").is_none());
    assert_eq!(RpcError::ParseError.code(), -32700);
}

#[test]
fn initialize_reports_server() {
    let state = AppState::new();
    let v = json(&line(state.respond(&request(Some("0"), "initialize", None))));
    assert_eq!(v["jsonrpc"], "2.0");
    assert_eq!(v["result"]["protocolVersion"], "2024-11-05");
    assert_eq!(v["result"]["capabilities"]["resources"]["subscribe"], true);
    assert_eq!(v["result"]["capabilities"]["resources"]["listChanged"], true);
    assert_eq!(v["result"]["capabilities"]["tools"]["listChanged"], false);
    assert_eq!(v["result"]["serverInfo"]["name"], "semantic-skeletonizer");
    assert_eq!(v["result"]["serverInfo"]["version"], "0.1.0");
}

#[test]
fn tools_list_has_two_tools() {
    let state = AppState::new();
    let v = json(&line(state.respond(&request(Some("2"), "tools/list", None))));
    let tools = v["result"]["tools"].as_array().unwrap();
    assert_eq!(tools.len(), 2);
    assert_eq!(tools[0]["name"], "get_implementation");
    assert_eq!(tools[0]["inputSchema"]["required"], json("[\"file_path\",\"target_node\"]"));
    assert_eq!(tools[1]["name"], "list_functions");
    assert_eq!(tools[1]["inputSchema"]["required"], json("[\"file_path\"]"));
}

#[test]
fn resources_list_counts_entries() {
    let state = AppState::new();
    state.index_batch(vec![
        ("a.ts".to_string(), vec![]),
        ("b.tsx".to_string(), vec![item(ItemKind::Class, "class B {}")]),
    ]);
    let rs = resources(&state.snapshot());
    assert_eq!(rs.len(), 3);
    assert_eq!(rs[0].uri, "skeleton://project/global");
    let v = json(&line(state.respond(&request(Some("3"), "resources/list", None))));
    let list = v["result"]["resources"].as_array().unwrap();
    assert_eq!(list.len(), 3);
    assert_eq!(list[0]["uri"], "skeleton://project/global");
    assert_eq!(list[0]["name"], "Global Semantic Skeleton");
    let mut uris: Vec<String> = list[1..].iter().map(|r| r["uri"].as_str().unwrap().to_string()).collect();
    uris.sort();
    assert_eq!(uris, vec!["skeleton://project/file/a.ts", "skeleton://project/file/b.tsx"]);
    for r in list {
        assert_eq!(r["mimeType"], "application/json");
    }
}

#[test]
fn file_read_matches_global_member() {
    let state = AppState::new();
    state.index_batch(vec![
        ("./a.ts".to_string(), vec![item(ItemKind::Function, "function f() {}")]),
        ("./b.ts".to_string(), vec![item(ItemKind::Variable, "const x = 1;")]),
    ]);
    let g = json(&line(state.respond(&read("skeleton://project/global"))));
    let graph = json(g["result"]["contents"][0]["text"].as_str().unwrap());
    for path in ["./a.ts", "./b.ts"] {
        let uri = format!("skeleton://project/file/{}", path);
        let f = json(&line(state.respond(&read(&uri))));
        let text = f["result"]["contents"][0]["text"].as_str().unwrap();
        assert_eq!(json(text), graph[path]);
    }
}

#[test]
fn read_without_uri_has_neither_result_nor_error() {
    let state = AppState::new();
    let out = line(state.respond(&request(Some("4"), "resources/read", None)));
    assert_eq!(out, "{\"jsonrpc\":\"2.0\",\"id\":4}");
}

#[test]
fn source_extensions() {
    assert!(is_source_extension("ts"));
    assert!(is_source_extension("tsx"));
    assert!(!is_source_extension("js"));
    assert!(!is_source_extension("TS"));
    assert!(!is_source_extension(""));
}

#[test]
fn batch_skeletons_keep_paths() {
    let built = skeletons_of(&vec![
        ("a.ts".to_string(), vec![item(ItemKind::Function, "function f() {}")]),
        ("b.ts".to_string(), vec![item(ItemKind::Statement, "f();")]),
    ]);
    assert_eq!(built.len(), 2);
    assert_eq!(built[0].0, "a.ts");
    assert_eq!(built[0].1.functions, vec!["function f() {}".to_string()]);
    assert_eq!(built[1].0, "b.ts");
    assert!(built[1].1.functions.is_empty());
}
