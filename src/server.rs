use vstd::prelude::*;
use crate::index::{distinct_paths, AppState};
use crate::json::{graph_json, graph_members, graph_to_json, json_quoted, quote, skeleton_json};
use crate::skeleton::FileSkeleton;
use crate::text::{after_prefix, has_prefix, joined, join_strings, owned, same_text};

verus! {

/// The `arguments` of a tool call, as far as the tools read them.
#[derive(Clone, Debug)]
pub struct Arguments {
    pub file_path: Option<String>,
    pub target_node: Option<String>,
}

/// The `params` of a request, as far as the methods read them.
#[derive(Clone, Debug)]
pub struct Params {
    pub uri: Option<String>,
    pub name: Option<String>,
    pub arguments: Option<Arguments>,
}

/// A JSON-RPC request. `id` holds the JSON text of the request's id; a
/// request without one is a notification and gets no response.
#[derive(Clone, Debug)]
pub struct Request {
    pub id: Option<String>,
    pub method: String,
    pub params: Option<Params>,
}

/// The JSON-RPC errors that the server reports.
#[derive(Clone, Copy, Debug, PartialEq, Eq, Structural)]
pub enum RpcError {
    ParseError,
    MethodNotFound,
    InvalidUri,
    FileNotFound,
    EmptyGraph,
    ExtractFailed,
}

/// The JSON error object of `e`.
pub open spec fn error_json(e: RpcError) -> Seq<char> {
    match e {
        RpcError::ParseError => "{\"code\":-32700,\"message\":\"Parse error\"}"@,
        RpcError::MethodNotFound => "{\"code\":-32601,\"message\":\"Method not found\"}"@,
        RpcError::InvalidUri => "{\"code\":-32602,\"message\":\"Invalid URI scheme for resource.\"}"@,
        RpcError::FileNotFound => "{\"code\":-32602,\"message\":\"File not found in graph.\"}"@,
        RpcError::EmptyGraph => "{\"code\":-32603,\"message\":\"Graph is empty. No files scanned or found.\"}"@,
        RpcError::ExtractFailed => "{\"code\":-32603,\"message\":\"Failed to extract implementation\"}"@,
    }
}

/// The JSON-RPC code of `e`.
pub open spec fn error_code(e: RpcError) -> int {
    match e {
        RpcError::ParseError => -32700,
        RpcError::MethodNotFound => -32601,
        RpcError::InvalidUri | RpcError::FileNotFound => -32602,
        RpcError::EmptyGraph | RpcError::ExtractFailed => -32603,
    }
}

impl RpcError {
    /// The JSON-RPC code of this error.
    pub fn code(&self) -> (r: i64)
        ensures
            r == error_code(*self),
    {
        match self {
            RpcError::ParseError => -32700,
            RpcError::MethodNotFound => -32601,
            RpcError::InvalidUri | RpcError::FileNotFound => -32602,
            RpcError::EmptyGraph | RpcError::ExtractFailed => -32603,
        }
    }

    /// The JSON error object of this error.
    pub fn to_json(&self) -> (r: &'static str)
        ensures
            r@ == error_json(*self),
    {
        match self {
            RpcError::ParseError => "{\"code\":-32700,\"message\":\"Parse error\"}",
            RpcError::MethodNotFound => "{\"code\":-32601,\"message\":\"Method not found\"}",
            RpcError::InvalidUri => "{\"code\":-32602,\"message\":\"Invalid URI scheme for resource.\"}",
            RpcError::FileNotFound => "{\"code\":-32602,\"message\":\"File not found in graph.\"}",
            RpcError::EmptyGraph => "{\"code\":-32603,\"message\":\"Graph is empty. No files scanned or found.\"}",
            RpcError::ExtractFailed => "{\"code\":-32603,\"message\":\"Failed to extract implementation\"}",
        }
    }
}

/// What a response carries besides its id: a result, an error, or neither.
pub enum Body {
    Result(String),
    Error(RpcError),
    Empty,
}

/// The abstract content of a [`Body`].
pub enum BodyModel {
    Result(Seq<char>),
    Error(RpcError),
    Empty,
}

impl View for Body {
    type V = BodyModel;

    open spec fn view(&self) -> BodyModel {
        match self {
            Body::Result(s) => BodyModel::Result(s@),
            Body::Error(e) => BodyModel::Error(*e),
            Body::Empty => BodyModel::Empty,
        }
    }
}

/// The response line for request id `id` (JSON text) and body `b`.
pub open spec fn envelope(id: Seq<char>, b: BodyModel) -> Seq<char> {
    match b {
        BodyModel::Result(r) => "{\"jsonrpc\":\"2.0\",\"id\":"@ + id + ",\"result\":"@ + r + "}"@,
        BodyModel::Error(e) => "{\"jsonrpc\":\"2.0\",\"id\":"@ + id + ",\"error\":"@ + error_json(e)
            + "}"@,
        BodyModel::Empty => "{\"jsonrpc\":\"2.0\",\"id\":"@ + id + "}"@,
    }
}

/// The response line for request id `id` and body `b`.
pub fn response_line(id: &str, b: Body) -> (r: String)
    ensures
        r@ == envelope(id@, b@),
{
    let mut r = String::from_str("{\"jsonrpc\":\"2.0\",\"id\":");
    r.append(id);
    match b {
        Body::Result(s) => {
            r.append(",\"result\":");
            r.append(s.as_str());
        },
        Body::Error(e) => {
            r.append(",\"error\":");
            r.append(e.to_json());
        },
        Body::Empty => {},
    }
    r.append("}");
    r
}

/// The line answering input that is not a request: a parse error with a null id.
pub open spec fn parse_error_line() -> Seq<char> {
    "{\"jsonrpc\":\"2.0\",\"id\":null,\"error\":{\"code\":-32700,\"message\":\"Parse error\"}}"@
}

/// A character with the Unicode White_Space property.
pub open spec fn is_white_space(c: char) -> bool {
    c == '\t' || c == '\n' || c == '\u{0B}' || c == '\u{0C}' || c == '\r' || c == ' ' || c
        == '\u{85}' || c == '\u{A0}' || c == '\u{1680}' || ('\u{2000}' <= c && c <= '\u{200A}')
        || c == '\u{2028}' || c == '\u{2029}' || c == '\u{202F}' || c == '\u{205F}' || c
        == '\u{3000}'
}

/// A line that holds nothing but white space.
pub open spec fn is_blank(s: Seq<char>) -> bool {
    forall|i: int| 0 <= i < s.len() ==> is_white_space(#[trigger] s[i])
}

fn white_space(c: char) -> (r: bool)
    ensures
        r == is_white_space(c),
{
    c == '\t' || c == '\n' || c == '\u{0B}' || c == '\u{0C}' || c == '\r' || c == ' ' || c
        == '\u{85}' || c == '\u{A0}' || c == '\u{1680}' || ('\u{2000}' <= c && c <= '\u{200A}')
        || c == '\u{2028}' || c == '\u{2029}' || c == '\u{202F}' || c == '\u{205F}' || c
        == '\u{3000}'
}

/// The answer to an input line that is not a well-formed request: nothing for
/// a blank line, a parse error otherwise.
pub fn malformed_line(line: &str) -> (r: Option<String>)
    ensures
        r is None <==> is_blank(line@),
        r is Some ==> r->0@ == parse_error_line(),
{
    let cs = crate::text::chars_of(line);
    let mut i: usize = 0;
    while i < cs.len()
        invariant
            cs@ == line@,
            i <= cs@.len(),
            forall|j: int| 0 <= j < i ==> is_white_space(#[trigger] line@[j]),
        decreases cs@.len() - i,
    {
        if !white_space(cs[i]) {
            return Some(
                owned(
                    "{\"jsonrpc\":\"2.0\",\"id\":null,\"error\":{\"code\":-32700,\"message\":\"Parse error\"}}",
                ),
            );
        }
        i = i + 1;
    }
    None
}

/// The notification sent after the index changed.
pub open spec fn change_notification_line() -> Seq<char> {
    "{\"jsonrpc\":\"2.0\",\"method\":\"notifications/resources/updated\",\"params\":{\"uri\":\"skeleton://project/global\"}}"@
}

/// The notification sent after the index changed.
pub fn change_notification() -> (r: String)
    ensures
        r@ == change_notification_line(),
{
    owned(
        "{\"jsonrpc\":\"2.0\",\"method\":\"notifications/resources/updated\",\"params\":{\"uri\":\"skeleton://project/global\"}}",
    )
}

/// The result of `initialize`.
pub open spec fn initialize_result() -> Seq<char> {
    "{\"capabilities\":{\"resources\":{\"listChanged\":true,\"subscribe\":true},\"tools\":{\"listChanged\":false}},\"protocolVersion\":\"2024-11-05\",\"serverInfo\":{\"name\":\"semantic-skeletonizer\",\"version\":\"0.1.0\"}}"@
}

/// The result of `tools/list`: the two tools and their input schemas.
pub open spec fn tools_result() -> Seq<char> {
    "{\"tools\":[{\"description\":\"Extracts complete inner logic of a node.\",\"inputSchema\":{\"properties\":{\"file_path\":{\"type\":\"string\"},\"target_node\":{\"type\":\"string\"}},\"required\":[\"file_path\",\"target_node\"],\"type\":\"object\"},\"name\":\"get_implementation\"},{\"description\":\"Lists all functions in a specific file.\",\"inputSchema\":{\"properties\":{\"file_path\":{\"type\":\"string\"}},\"required\":[\"file_path\"],\"type\":\"object\"},\"name\":\"list_functions\"}]}"@
}

fn initialize_json() -> (r: String)
    ensures
        r@ == initialize_result(),
{
    owned(
        "{\"capabilities\":{\"resources\":{\"listChanged\":true,\"subscribe\":true},\"tools\":{\"listChanged\":false}},\"protocolVersion\":\"2024-11-05\",\"serverInfo\":{\"name\":\"semantic-skeletonizer\",\"version\":\"0.1.0\"}}",
    )
}

fn tools_json() -> (r: String)
    ensures
        r@ == tools_result(),
{
    owned(
        "{\"tools\":[{\"description\":\"Extracts complete inner logic of a node.\",\"inputSchema\":{\"properties\":{\"file_path\":{\"type\":\"string\"},\"target_node\":{\"type\":\"string\"}},\"required\":[\"file_path\",\"target_node\"],\"type\":\"object\"},\"name\":\"get_implementation\"},{\"description\":\"Lists all functions in a specific file.\",\"inputSchema\":{\"properties\":{\"file_path\":{\"type\":\"string\"}},\"required\":[\"file_path\"],\"type\":\"object\"},\"name\":\"list_functions\"}]}",
    )
}

/// One entry of `resources/list`.
pub struct Resource {
    pub uri: String,
    pub name: String,
}

/// The resource of the whole project.
pub open spec fn is_global_resource(r: Resource) -> bool {
    r.uri@ == "skeleton://project/global"@ && r.name@ == "Global Semantic Skeleton"@
}

/// The resource of the file at `path`.
pub open spec fn is_file_resource(r: Resource, path: Seq<char>) -> bool {
    r.uri@ == "skeleton://project/file/"@ + path && r.name@ == "Semantic Skeleton for "@ + path
}

/// The resources offered for a snapshot of the index: the global one first,
/// then one for each entry, in the snapshot's order.
pub fn resources(entries: &Vec<(String, FileSkeleton)>) -> (r: Vec<Resource>)
    ensures
        r@.len() == entries@.len() + 1,
        is_global_resource(r@[0]),
        forall|i: int| 0 <= i < entries@.len() ==> is_file_resource(#[trigger] r@[i + 1], entries@[i].0@),
{
    let mut r: Vec<Resource> = Vec::new();
    r.push(Resource { uri: owned("skeleton://project/global"), name: owned("Global Semantic Skeleton") });
    let mut i: usize = 0;
    while i < entries.len()
        invariant
            i <= entries@.len(),
            r@.len() == i + 1,
            is_global_resource(r@[0]),
            forall|k: int| 0 <= k < i ==> is_file_resource(#[trigger] r@[k + 1], entries@[k].0@),
        decreases entries@.len() - i,
    {
        let path = entries[i].0.as_str();
        let mut uri = owned("skeleton://project/file/");
        uri.append(path);
        let mut name = owned("Semantic Skeleton for ");
        name.append(path);
        r.push(Resource { uri, name });
        i = i + 1;
    }
    r
}

/// The JSON object of one resource.
pub open spec fn resource_json(r: Resource) -> Seq<char> {
    "{\"mimeType\":\"application/json\",\"name\":"@ + json_quoted(r.name@) + ",\"uri\":"@
        + json_quoted(r.uri@) + "}"@
}

/// The result of `resources/list` for the resources `rs`.
pub open spec fn resources_result(rs: Seq<Resource>) -> Seq<char> {
    "{\"resources\":["@ + joined(rs.map_values(|r: Resource| resource_json(r)), ","@) + "]}"@
}

/// The result of `resources/list` for the resources `rs`.
pub fn resources_json(rs: &Vec<Resource>) -> (r: String)
    ensures
        r@ == resources_result(rs@),
{
    let mut r = owned("{\"resources\":[");
    let mut i: usize = 0;
    while i < rs.len()
        invariant
            i <= rs@.len(),
            r@ == "{\"resources\":["@ + joined(
                rs@.subrange(0, i as int).map_values(|r: Resource| resource_json(r)),
                ","@,
            ),
        decreases rs@.len() - i,
    {
        let ghost before = rs@.subrange(0, i as int).map_values(|r: Resource| resource_json(r));
        if i > 0 {
            r.append(",");
        }
        r.append("{\"mimeType\":\"application/json\",\"name\":");
        r.append(quote(rs[i].name.as_str()).as_str());
        r.append(",\"uri\":");
        r.append(quote(rs[i].uri.as_str()).as_str());
        r.append("}");
        proof {
            let after = rs@.subrange(0, i + 1).map_values(|r: Resource| resource_json(r));
            assert(after.drop_last() =~= before);
            assert(after.last() == resource_json(rs@[i as int]));
            if i > 0 {
                assert(r@ =~= "{\"resources\":["@ + (joined(before, ","@) + ","@ + after.last()));
            } else {
                assert(r@ =~= "{\"resources\":["@ + after.last());
            }
        }
        i = i + 1;
    }
    assert(rs@.subrange(0, rs@.len() as int) =~= rs@);
    r.append("]}");
    r
}

/// The result of reading the global resource.
pub open spec fn global_read_result(entries: Seq<(String, FileSkeleton)>) -> Seq<char> {
    "{\"contents\":[{\"mimeType\":\"application/json\",\"text\":"@ + json_quoted(
        graph_json(entries),
    ) + ",\"uri\":\"skeleton://project/global\"}]}"@
}

/// The result of reading the resource `uri` of one file with skeleton `sk`.
pub open spec fn file_read_result(uri: Seq<char>, sk: FileSkeleton) -> Seq<char> {
    "{\"contents\":[{\"mimeType\":\"application/json\",\"text\":"@ + json_quoted(skeleton_json(sk))
        + ",\"uri\":"@ + json_quoted(uri) + "}]}"@
}

/// A tool result made of one text.
pub open spec fn tool_text_result(t: Seq<char>) -> Seq<char> {
    "{\"content\":[{\"text\":"@ + json_quoted(t) + ",\"type\":\"text\"}]}"@
}

/// Reading the resource of one file yields, as its text, the same JSON as that
/// file's member of the whole-project document read from the same index: the
/// member is the path as key and exactly that JSON as value.
pub proof fn lemma_file_read_matches_global(entries: Seq<(String, FileSkeleton)>, i: int)
    requires
        0 <= i < entries.len(),
    ensures
        ({
            let sk = entries[i].1;
            let uri = "skeleton://project/file/"@ + entries[i].0@;
            &&& file_body(uri, Some(sk)) == BodyModel::Result(file_read_result(uri, sk))
            &&& file_read_result(uri, sk) == "{\"contents\":[{\"mimeType\":\"application/json\",\"text\":"@
                + json_quoted(skeleton_json(sk)) + ",\"uri\":"@ + json_quoted(uri) + "}]}"@
            &&& global_body(entries) == BodyModel::Result(global_read_result(entries))
            &&& global_read_result(entries) == "{\"contents\":[{\"mimeType\":\"application/json\",\"text\":"@
                + json_quoted(graph_json(entries)) + ",\"uri\":\"skeleton://project/global\"}]}"@
            &&& graph_json(entries) == "{"@ + joined(graph_members(entries), ","@) + "}"@
            &&& graph_members(entries).len() == entries.len()
            &&& graph_members(entries)[i] == json_quoted(entries[i].0@) + ":"@ + skeleton_json(sk)
        }),
{
}

/// The answer to reading the global resource, given a snapshot of the index.
pub open spec fn global_body(entries: Seq<(String, FileSkeleton)>) -> BodyModel {
    if entries.len() == 0 {
        BodyModel::Error(RpcError::EmptyGraph)
    } else {
        BodyModel::Result(global_read_result(entries))
    }
}

/// Reads the global resource from a snapshot of the index.
pub fn read_global(entries: &Vec<(String, FileSkeleton)>) -> (r: Body)
    ensures
        r@ == global_body(entries@),
{
    if entries.len() == 0 {
        return Body::Error(RpcError::EmptyGraph);
    }
    let mut r = owned("{\"contents\":[{\"mimeType\":\"application/json\",\"text\":");
    r.append(quote(graph_to_json(entries).as_str()).as_str());
    r.append(",\"uri\":\"skeleton://project/global\"}]}");
    Body::Result(r)
}

/// The answer to reading the file resource `uri`, given what the index holds
/// under its path.
pub open spec fn file_body(uri: Seq<char>, found: Option<FileSkeleton>) -> BodyModel {
    match found {
        Some(sk) => BodyModel::Result(file_read_result(uri, sk)),
        None => BodyModel::Error(RpcError::FileNotFound),
    }
}

/// Reads the file resource `uri`, given what the index holds under its path.
pub fn read_file(uri: &str, found: Option<FileSkeleton>) -> (r: Body)
    ensures
        r@ == file_body(uri@, found),
{
    match found {
        Some(sk) => {
            let mut r = owned("{\"contents\":[{\"mimeType\":\"application/json\",\"text\":");
            r.append(quote(sk.to_json().as_str()).as_str());
            r.append(",\"uri\":");
            r.append(quote(uri).as_str());
            r.append("}]}");
            Body::Result(r)
        },
        None => Body::Error(RpcError::FileNotFound),
    }
}

/// The answer to `list_functions`, given what the index holds under the path.
pub open spec fn functions_body(found: Option<FileSkeleton>) -> BodyModel {
    match found {
        Some(sk) => BodyModel::Result(
            tool_text_result(joined(sk.functions.deep_view(), "\n"@)),
        ),
        None => BodyModel::Error(RpcError::FileNotFound),
    }
}

/// Answers `list_functions`: the file's functions, one per line.
pub fn list_functions(found: Option<FileSkeleton>) -> (r: Body)
    ensures
        r@ == functions_body(found),
{
    match found {
        Some(sk) => Body::Result(tool_text(join_strings(&sk.functions, "\n").as_str())),
        None => Body::Error(RpcError::FileNotFound),
    }
}

fn tool_text(t: &str) -> (r: String)
    ensures
        r@ == tool_text_result(t@),
{
    let mut r = owned("{\"content\":[{\"text\":");
    r.append(quote(t).as_str());
    r.append(",\"type\":\"text\"}]}");
    r
}

/// The answer to `get_implementation`, given the dump of the file's syntax
/// tree, or nothing where it could not be read or parsed.
pub open spec fn implementation_body(dump: Option<String>) -> BodyModel {
    match dump {
        Some(d) => BodyModel::Result(tool_text_result(d@)),
        None => BodyModel::Error(RpcError::ExtractFailed),
    }
}

/// The response line to `get_implementation`, given the dump of the file's
/// syntax tree, or nothing where it could not be read or parsed.
pub fn implementation_line(id: &str, dump: Option<String>) -> (r: String)
    ensures
        r@ == envelope(id@, implementation_body(dump)),
{
    let b = match dump {
        Some(d) => Body::Result(tool_text(d.as_str())),
        None => Body::Error(RpcError::ExtractFailed),
    };
    response_line(id, b)
}

/// The text of an optional string, empty where it is absent.
pub open spec fn text_or_empty(o: Option<String>) -> Seq<char> {
    match o {
        Some(s) => s@,
        None => Seq::empty(),
    }
}

/// What the server does with one request, before it knows the id.
pub enum AnswerModel {
    Reply(BodyModel),
    /// Reparse the file at this path and dump its syntax tree.
    Implementation(Seq<char>),
}

/// The answer to `req`, where `entries` is a snapshot of the index and
/// `found` what it holds under the path that the request names.
pub open spec fn answer(
    req: Request,
    entries: Seq<(String, FileSkeleton)>,
    found: Option<FileSkeleton>,
) -> AnswerModel {
    let m = req.method@;
    if m == "initialize"@ {
        AnswerModel::Reply(BodyModel::Result(initialize_result()))
    } else if m == "resources/list"@ {
        AnswerModel::Reply(
            BodyModel::Result(
                "{\"resources\":["@ + joined(
                    seq![global_resource_json()] + entries.map_values(
                        |e: (String, FileSkeleton)| file_resource_json(e.0@),
                    ),
                    ","@,
                ) + "]}"@,
            ),
        )
    } else if m == "resources/read"@ {
        match req.params {
            Some(p) => match p.uri {
                Some(uri) => if uri@ == "skeleton://project/global"@ {
                    AnswerModel::Reply(global_body(entries))
                } else if has_prefix(uri@, "skeleton://project/file/"@) {
                    AnswerModel::Reply(file_body(uri@, found))
                } else {
                    AnswerModel::Reply(BodyModel::Error(RpcError::InvalidUri))
                },
                None => AnswerModel::Reply(BodyModel::Empty),
            },
            None => AnswerModel::Reply(BodyModel::Empty),
        }
    } else if m == "tools/list"@ {
        AnswerModel::Reply(BodyModel::Result(tools_result()))
    } else if m == "tools/call"@ {
        match req.params {
            Some(p) => {
                let name = text_or_empty(p.name);
                if name == "get_implementation"@ {
                    match p.arguments {
                        Some(a) => AnswerModel::Implementation(text_or_empty(a.file_path)),
                        None => AnswerModel::Reply(BodyModel::Empty),
                    }
                } else if name == "list_functions"@ {
                    match p.arguments {
                        Some(a) => AnswerModel::Reply(functions_body(found)),
                        None => AnswerModel::Reply(BodyModel::Empty),
                    }
                } else {
                    AnswerModel::Reply(BodyModel::Error(RpcError::MethodNotFound))
                }
            },
            None => AnswerModel::Reply(BodyModel::Empty),
        }
    } else {
        AnswerModel::Reply(BodyModel::Error(RpcError::MethodNotFound))
    }
}

/// The JSON object of the global resource.
pub open spec fn global_resource_json() -> Seq<char> {
    "{\"mimeType\":\"application/json\",\"name\":"@ + json_quoted("Global Semantic Skeleton"@)
        + ",\"uri\":"@ + json_quoted("skeleton://project/global"@) + "}"@
}

/// The JSON object of the resource of the file at `path`.
pub open spec fn file_resource_json(path: Seq<char>) -> Seq<char> {
    "{\"mimeType\":\"application/json\",\"name\":"@ + json_quoted(
        "Semantic Skeleton for "@ + path,
    ) + ",\"uri\":"@ + json_quoted("skeleton://project/file/"@ + path) + "}"@
}

/// What the server does after reading a request.
pub enum Outcome {
    /// Write nothing.
    Silent,
    /// Write this line.
    Line(String),
    /// Reparse the file at `file_path`, dump its syntax tree, and answer with
    /// `implementation_line(id, ..)`.
    Implementation { id: String, file_path: String },
}

/// The abstract content of an [`Outcome`].
pub enum OutcomeModel {
    Silent,
    Line(Seq<char>),
    Implementation(Seq<char>, Seq<char>),
}

impl View for Outcome {
    type V = OutcomeModel;

    open spec fn view(&self) -> OutcomeModel {
        match self {
            Outcome::Silent => OutcomeModel::Silent,
            Outcome::Line(s) => OutcomeModel::Line(s@),
            Outcome::Implementation { id, file_path } => OutcomeModel::Implementation(
                id@,
                file_path@,
            ),
        }
    }
}

/// What the server does with `req`, where `entries` is a snapshot of the
/// index and `found` what it holds under the path that the request names.
pub open spec fn outcome(
    req: Request,
    entries: Seq<(String, FileSkeleton)>,
    found: Option<FileSkeleton>,
) -> OutcomeModel {
    match req.id {
        None => OutcomeModel::Silent,
        Some(id) => match answer(req, entries, found) {
            AnswerModel::Reply(b) => OutcomeModel::Line(envelope(id@, b)),
            AnswerModel::Implementation(p) => OutcomeModel::Implementation(id@, p),
        },
    }
}

/// What the server does with one request, before it knows the id.
pub enum Answer {
    Reply(Body),
    Implementation(String),
}

impl View for Answer {
    type V = AnswerModel;

    open spec fn view(&self) -> AnswerModel {
        match self {
            Answer::Reply(b) => AnswerModel::Reply(b@),
            Answer::Implementation(p) => AnswerModel::Implementation(p@),
        }
    }
}

/// The result of `resources/list` for a snapshot of the index.
pub fn resources_list(entries: &Vec<(String, FileSkeleton)>) -> (r: String)
    ensures
        r@ == "{\"resources\":["@ + joined(
            seq![global_resource_json()] + entries@.map_values(
                |e: (String, FileSkeleton)| file_resource_json(e.0@),
            ),
            ","@,
        ) + "]}"@,
{
    let rs = resources(entries);
    let r = resources_json(&rs);
    let ghost objs = rs@.map_values(|r: Resource| resource_json(r));
    let ghost want = seq![global_resource_json()] + entries@.map_values(
        |e: (String, FileSkeleton)| file_resource_json(e.0@),
    );
    assert forall|i: int| 0 <= i < objs.len() implies objs[i] == want[i] by {
        if i > 0 {
            assert(is_file_resource(rs@[(i - 1) + 1], entries@[i - 1].0@));
        }
    }
    assert(objs =~= want);
    r
}

/// The path whose entry `req` reads from the index, if it reads one: the
/// path of a file resource, or the `file_path` of `list_functions`.
pub open spec fn requested_path(req: Request) -> Option<Seq<char>> {
    let m = req.method@;
    if m == "resources/read"@ {
        match req.params {
            Some(p) => match p.uri {
                Some(uri) => if uri@ != "skeleton://project/global"@ && has_prefix(
                    uri@,
                    "skeleton://project/file/"@,
                ) {
                    Some(uri@.subrange("skeleton://project/file/"@.len() as int, uri@.len() as int))
                } else {
                    None
                },
                None => None,
            },
            None => None,
        }
    } else if m == "tools/call"@ {
        match req.params {
            Some(p) => if text_or_empty(p.name) == "list_functions"@ {
                match p.arguments {
                    Some(a) => Some(text_or_empty(a.file_path)),
                    None => None,
                }
            } else {
                None
            },
            None => None,
        }
    } else {
        None
    }
}

/// `found` is an entry of the index under the very path that `req` reads, or
/// nothing.
pub open spec fn read_under(req: Request, found: Option<(String, FileSkeleton)>) -> bool {
    found is Some ==> requested_path(req) == Some((found->0).0@)
}

/// The skeleton of an entry, if there is one.
pub open spec fn skeleton_part(found: Option<(String, FileSkeleton)>) -> Option<FileSkeleton> {
    match found {
        Some(e) => Some(e.1),
        None => None,
    }
}

fn skeleton_found(found: Option<(String, FileSkeleton)>) -> (r: Option<FileSkeleton>)
    ensures
        r == skeleton_part(found),
{
    match found {
        Some((_, sk)) => Some(sk),
        None => None,
    }
}

impl AppState {
    /// What the server does with `req`, before it knows the id: the index is
    /// read at most once, by a snapshot or by the path that the request names.
    pub fn answer_request(&self, req: &Request) -> (r: Answer)
        ensures
            exists|entries: Seq<(String, FileSkeleton)>, found: Option<(String, FileSkeleton)>|
                distinct_paths(entries) && read_under(*req, found) && r@ == answer(
                    *req,
                    entries,
                    skeleton_part(found),
                ),
    {
        let ghost mut entries: Seq<(String, FileSkeleton)> = Seq::empty();
        let ghost mut found: Option<(String, FileSkeleton)> = None;
        let m = req.method.as_str();
        let r = if same_text(m, "initialize") {
            Answer::Reply(Body::Result(initialize_json()))
        } else if same_text(m, "resources/list") {
            let snap = self.snapshot();
            proof {
                entries = snap@;
            }
            Answer::Reply(Body::Result(resources_list(&snap)))
        } else if same_text(m, "resources/read") {
            match &req.params {
                Some(p) => match &p.uri {
                    Some(uri) => {
                        let u = uri.as_str();
                        if same_text(u, "skeleton://project/global") {
                            let snap = self.snapshot();
                            proof {
                                entries = snap@;
                            }
                            Answer::Reply(read_global(&snap))
                        } else {
                            match after_prefix(u, "skeleton://project/file/") {
                                Some(path) => {
                                    let hit = self.lookup(path);
                                    proof {
                                        found = hit;
                                    }
                                    Answer::Reply(read_file(u, skeleton_found(hit)))
                                },
                                None => Answer::Reply(Body::Error(RpcError::InvalidUri)),
                            }
                        }
                    },
                    None => Answer::Reply(Body::Empty),
                },
                None => Answer::Reply(Body::Empty),
            }
        } else if same_text(m, "tools/list") {
            Answer::Reply(Body::Result(tools_json()))
        } else if same_text(m, "tools/call") {
            match &req.params {
                Some(p) => {
                    let name = match &p.name {
                        Some(n) => n.as_str(),
                        None => "",
                    };
                    proof {
                        reveal_strlit("");
                    }
                    assert(name@ == text_or_empty(p.name));
                    if same_text(name, "get_implementation") {
                        match &p.arguments {
                            Some(a) => {
                                let path = match &a.file_path {
                                    Some(f) => f.clone(),
                                    None => String::new(),
                                };
                                Answer::Implementation(path)
                            },
                            None => Answer::Reply(Body::Empty),
                        }
                    } else if same_text(name, "list_functions") {
                        match &p.arguments {
                            Some(a) => {
                                let path = match &a.file_path {
                                    Some(f) => f.as_str(),
                                    None => "",
                                };
                                assert(path@ == text_or_empty(a.file_path));
                                let hit = self.lookup(path);
                                proof {
                                    found = hit;
                                }
                                Answer::Reply(list_functions(skeleton_found(hit)))
                            },
                            None => Answer::Reply(Body::Empty),
                        }
                    } else {
                        Answer::Reply(Body::Error(RpcError::MethodNotFound))
                    }
                },
                None => Answer::Reply(Body::Empty),
            }
        } else {
            Answer::Reply(Body::Error(RpcError::MethodNotFound))
        };
        assert(distinct_paths(entries) && read_under(*req, found) && r@ == answer(
            *req,
            entries,
            skeleton_part(found),
        ));
        r
    }

    /// What the server does with one request: nothing for a notification, else
    /// the response line, or the reparse that `get_implementation` asks for.
    /// The index is read at most once, and whatever it held then is what the
    /// response shows.
    pub fn respond(&self, req: &Request) -> (r: Outcome)
        ensures
            exists|entries: Seq<(String, FileSkeleton)>, found: Option<(String, FileSkeleton)>|
                distinct_paths(entries) && read_under(*req, found) && r@ == outcome(
                    *req,
                    entries,
                    skeleton_part(found),
                ),
    {
        match &req.id {
            None => {
                let r = Outcome::Silent;
                assert(distinct_paths(Seq::<(String, FileSkeleton)>::empty()) && read_under(
                    *req,
                    None,
                ) && r@ == outcome(*req, Seq::empty(), skeleton_part(None)));
                r
            },
            Some(id) => {
                let a = self.answer_request(req);
                let ghost (entries, found) = choose|
                    entries: Seq<(String, FileSkeleton)>,
                    found: Option<(String, FileSkeleton)>,
                |
                    distinct_paths(entries) && read_under(*req, found) && a@ == answer(
                        *req,
                        entries,
                        skeleton_part(found),
                    );
                let r = match a {
                    Answer::Reply(b) => Outcome::Line(response_line(id.as_str(), b)),
                    Answer::Implementation(p) => Outcome::Implementation { id: id.clone(), file_path: p },
                };
                assert(distinct_paths(entries) && read_under(*req, found) && r@ == outcome(
                    *req,
                    entries,
                    skeleton_part(found),
                ));
                r
            },
        }
    }
}

} // verus!
