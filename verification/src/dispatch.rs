//! The request dispatcher: one structured request in, exactly one
//! structured response out.
//!
//! Failures live on two tiers, and the distinction is load-bearing. A
//! transport-level fault (a line that did not parse, an unknown method, bad
//! call parameters) becomes a protocol error envelope. An operation-level
//! fault (the backing client refused or failed the work) becomes
//! error-flagged content inside an otherwise successful envelope, so a
//! caller can always tell "your request was malformed" from "the operation
//! you requested failed".

use vstd::prelude::*;

use crate::errors::ClientError;
use crate::jsonout::{join_comma, json_list, json_str, push_json_str};
use crate::registry::{catalog_ok, json_tool, push_tool, tool_catalog, ToolSpec};
use crate::text::{dec_int, push_dec_i64, str_eq};

verus! {

/// The identifier a request carries and its response echoes. Integer and
/// string ids are held as such; an id of any other shape (a fraction, a
/// boolean, a structured value) is modeled as absent and echoes as `null`.
pub enum ReqId {
    Absent,
    Num(i64),
    Text(String),
}

/// One argument value of a tool call, as read off the wire: text, a
/// non-negative integer, or something of any other shape.
pub enum ArgValue {
    Text(String),
    Nat(u64),
    Other,
}

/// One named argument of a tool call.
pub struct CallArg {
    pub name: String,
    pub value: ArgValue,
}

/// The parameters of a tool-invocation request.
pub struct CallParams {
    pub tool: Option<String>,
    pub args: Vec<CallArg>,
}

/// One line of input, after framing: either it did not parse as a request,
/// or it is a request with an id, a method, and optional call parameters.
pub enum Incoming {
    Malformed,
    Request { id: ReqId, method: String, params: Option<CallParams> },
}

/// The body of a successful envelope.
pub enum Payload {
    /// The static capability and version descriptor.
    Capabilities,
    /// The tool catalog, returned verbatim.
    ToolCatalog(Vec<ToolSpec>),
    /// Textual content; `is_error` flags an operation-level failure.
    Content { text: String, is_error: bool },
}

/// One response envelope: a transport-level error or a success.
pub enum Response {
    Failure { id: ReqId, code: i64, message: String },
    Success { id: ReqId, payload: Payload },
}

/// A validated tool invocation, ready for the backing clients.
pub enum ToolAction {
    Search { query: String, limit: Option<u64> },
    Info { name: String },
    VersionList { name: String, limit: Option<u64> },
    DependencyList { name: String, version: Option<String> },
    Documentation { name: String, version: Option<String> },
}

/// What the dispatcher decides for one request: answer at once, or run the
/// named action and wrap its result with [`wrap_tool_result`].
pub enum Outcome {
    Reply(Response),
    Invoke { id: ReqId, action: ToolAction },
}

/// The first value bound to `name` among the arguments.
pub open spec fn lookup_arg(args: Seq<CallArg>, name: Seq<char>) -> Option<ArgValue>
    decreases args.len(),
{
    if args.len() == 0 {
        Option::None
    } else if args[0].name@ == name {
        Option::Some(args[0].value)
    } else {
        lookup_arg(args.drop_first(), name)
    }
}

/// The argument as text, when it is bound and is text.
pub open spec fn str_arg_view(args: Seq<CallArg>, name: Seq<char>) -> Option<Seq<char>> {
    match lookup_arg(args, name) {
        Option::Some(ArgValue::Text(s)) => Option::Some(s@),
        _ => Option::None,
    }
}

/// The argument as an integer, when it is bound and is one.
pub open spec fn nat_arg_view(args: Seq<CallArg>, name: Seq<char>) -> Option<u64> {
    match lookup_arg(args, name) {
        Option::Some(ArgValue::Nat(n)) => Option::Some(n),
        _ => Option::None,
    }
}

proof fn lemma_lookup_found(args: Seq<CallArg>, name: Seq<char>, i: int)
    requires
        0 <= i < args.len(),
        args[i].name@ == name,
        forall|k: int| 0 <= k < i ==> #[trigger] args[k].name@ != name,
    ensures
        lookup_arg(args, name) == Option::Some(args[i].value),
    decreases i,
{
    if i > 0 {
        lemma_lookup_found(args.drop_first(), name, i - 1);
    }
}

proof fn lemma_lookup_none(args: Seq<CallArg>, name: Seq<char>)
    requires
        forall|k: int| 0 <= k < args.len() ==> #[trigger] args[k].name@ != name,
    ensures
        lookup_arg(args, name) is None,
    decreases args.len(),
{
    if args.len() > 0 {
        lemma_lookup_none(args.drop_first(), name);
    }
}

fn find_arg<'a>(args: &'a Vec<CallArg>, name: &str) -> (r: Option<&'a ArgValue>)
    ensures
        match r {
            Option::Some(v) => lookup_arg(args@, name@) == Option::Some(*v),
            Option::None => lookup_arg(args@, name@) is None,
        },
{
    let mut i: usize = 0;
    while i < args.len()
        invariant
            i <= args.len(),
            forall|k: int| 0 <= k < i ==> #[trigger] args@[k].name@ != name@,
        decreases args.len() - i,
    {
        if str_eq(args[i].name.as_str(), name) {
            proof {
                lemma_lookup_found(args@, name@, i as int);
            }
            return Some(&args[i].value);
        }
        i += 1;
    }
    proof {
        lemma_lookup_none(args@, name@);
    }
    None
}

/// Fetch a text argument; a missing binding and a non-text binding read
/// the same, as absent.
fn get_str_arg(args: &Vec<CallArg>, name: &str) -> (r: Option<String>)
    ensures
        match str_arg_view(args@, name@) {
            Option::Some(v) => r matches Option::Some(s) && s@ == v,
            Option::None => r is None,
        },
{
    match find_arg(args, name) {
        Option::Some(ArgValue::Text(s)) => Some(s.clone()),
        _ => None,
    }
}

/// Fetch an integer argument; a missing binding and a non-integer binding
/// read the same, as absent.
fn get_nat_arg(args: &Vec<CallArg>, name: &str) -> (r: Option<u64>)
    ensures
        r == nat_arg_view(args@, name@),
{
    match find_arg(args, name) {
        Option::Some(ArgValue::Nat(n)) => Some(*n),
        _ => None,
    }
}

/// The outcome is a protocol error envelope with this id, code and text.
pub open spec fn is_failure(out: Outcome, id: ReqId, code: int, msg: Seq<char>) -> bool {
    out matches Outcome::Reply(Response::Failure { id: i, code: c, message: m }) && i == id
        && c as int == code && m@ == msg
}

/// The outcome is a success envelope whose content is flagged as an
/// operation-level error with this text.
pub open spec fn is_content_error(out: Outcome, id: ReqId, msg: Seq<char>) -> bool {
    out matches Outcome::Reply(
        Response::Success { id: i, payload: Payload::Content { text, is_error } },
    ) && i == id && text@ == msg && is_error
}

/// What the dispatcher owes for a `search_crates` call. A given limit is
/// held to the schema's bounds, one to one hundred.
pub open spec fn search_call_spec(id: ReqId, args: Seq<CallArg>, out: Outcome) -> bool {
    match str_arg_view(args, "query"@) {
        Option::None => is_content_error(out, id, "Error: Missing 'query' parameter"@),
        Option::Some(q) => {
            let lim = nat_arg_view(args, "limit"@);
            if lim matches Option::Some(l) && l > 100 {
                is_content_error(out, id, "Error: Limit cannot exceed 100"@)
            } else if lim matches Option::Some(l) && l < 1 {
                is_content_error(out, id, "Error: Limit must be at least 1"@)
            } else {
                out matches Outcome::Invoke { id: i, action: ToolAction::Search { query, limit } }
                    && i == id && query@ == q && limit == lim
            }
        },
    }
}

/// What the dispatcher owes for a `get_crate_info` call.
pub open spec fn info_call_spec(id: ReqId, args: Seq<CallArg>, out: Outcome) -> bool {
    match str_arg_view(args, "name"@) {
        Option::None => is_content_error(out, id, "Error: Missing 'name' parameter"@),
        Option::Some(n) => out matches Outcome::Invoke { id: i, action: ToolAction::Info { name } }
            && i == id && name@ == n,
    }
}

/// What the dispatcher owes for a `get_crate_versions` call. A given
/// limit is held to the schema's bounds, one to fifty.
pub open spec fn versions_call_spec(id: ReqId, args: Seq<CallArg>, out: Outcome) -> bool {
    match str_arg_view(args, "name"@) {
        Option::None => is_content_error(out, id, "Error: Missing 'name' parameter"@),
        Option::Some(n) => {
            let lim = nat_arg_view(args, "limit"@);
            if lim matches Option::Some(l) && l > 50 {
                is_content_error(out, id, "Error: Limit cannot exceed 50"@)
            } else if lim matches Option::Some(l) && l < 1 {
                is_content_error(out, id, "Error: Limit must be at least 1"@)
            } else {
                out matches Outcome::Invoke {
                    id: i,
                    action: ToolAction::VersionList { name, limit },
                } && i == id && name@ == n && limit == lim
            }
        },
    }
}

/// Two optional strings agree character for character.
pub open spec fn opt_str_eq(a: Option<String>, v: Option<Seq<char>>) -> bool {
    match (a, v) {
        (Option::None, Option::None) => true,
        (Option::Some(s), Option::Some(t)) => s@ == t,
        _ => false,
    }
}

/// What the dispatcher owes for a `get_crate_dependencies` call.
pub open spec fn deps_call_spec(id: ReqId, args: Seq<CallArg>, out: Outcome) -> bool {
    match str_arg_view(args, "name"@) {
        Option::None => is_content_error(out, id, "Error: Missing 'name' parameter"@),
        Option::Some(n) => out matches Outcome::Invoke {
            id: i,
            action: ToolAction::DependencyList { name, version },
        } && i == id && name@ == n && opt_str_eq(version, str_arg_view(args, "version"@)),
    }
}

/// What the dispatcher owes for a `get_crate_documentation` call.
pub open spec fn docs_call_spec(id: ReqId, args: Seq<CallArg>, out: Outcome) -> bool {
    match str_arg_view(args, "name"@) {
        Option::None => is_content_error(out, id, "Error: Missing 'name' parameter"@),
        Option::Some(n) => out matches Outcome::Invoke {
            id: i,
            action: ToolAction::Documentation { name, version },
        } && i == id && name@ == n && opt_str_eq(version, str_arg_view(args, "version"@)),
    }
}

/// What the dispatcher owes for a `tools/call` request.
pub open spec fn tool_call_spec(id: ReqId, params: Option<CallParams>, out: Outcome) -> bool {
    match params {
        Option::None => is_failure(out, id, -32602, "Invalid params"@),
        Option::Some(p) => match p.tool {
            Option::None => is_failure(out, id, -32602, "Missing tool name"@),
            Option::Some(t) => if t@ == "search_crates"@ {
                search_call_spec(id, p.args@, out)
            } else if t@ == "get_crate_info"@ {
                info_call_spec(id, p.args@, out)
            } else if t@ == "get_crate_versions"@ {
                versions_call_spec(id, p.args@, out)
            } else if t@ == "get_crate_dependencies"@ {
                deps_call_spec(id, p.args@, out)
            } else if t@ == "get_crate_documentation"@ {
                docs_call_spec(id, p.args@, out)
            } else {
                is_failure(out, id, -32601, "Unknown tool"@)
            },
        },
    }
}

/// Everything the dispatcher owes for one framed input line.
pub open spec fn dispatch_spec(req: Incoming, out: Outcome) -> bool {
    match req {
        Incoming::Malformed => is_failure(out, ReqId::Absent, -32700, "Parse error"@),
        Incoming::Request { id, method, params } => {
            if method@ == "initialize"@ {
                out matches Outcome::Reply(
                    Response::Success { id: i, payload: Payload::Capabilities },
                ) && i == id
            } else if method@ == "tools/list"@ {
                out matches Outcome::Reply(
                    Response::Success { id: i, payload: Payload::ToolCatalog(ts) },
                ) && i == id && catalog_ok(ts@)
            } else if method@ == "tools/call"@ {
                tool_call_spec(id, params, out)
            } else {
                is_failure(out, id, -32601, "Method not found"@)
            }
        },
    }
}

fn content_error(id: ReqId, msg: &str) -> (r: Response)
    ensures
        r matches Response::Success { id: i, payload: Payload::Content { text, is_error } } && i
            == id && text@ == msg@ && is_error,
{
    Response::Success { id, payload: Payload::Content { text: msg.to_owned(), is_error: true } }
}

fn failure(id: ReqId, code: i64, msg: &str) -> (r: Response)
    ensures
        r matches Response::Failure { id: i, code: c, message: m } && i == id && c == code && m@
            == msg@,
{
    Response::Failure { id, code, message: msg.to_owned() }
}

/// Route one framed input line: validate it, and either answer it directly
/// or hand back the backing-client action it asks for.
pub fn dispatch(req: Incoming) -> (out: Outcome)
    ensures
        dispatch_spec(req, out),
{
    match req {
        Incoming::Malformed => Outcome::Reply(failure(ReqId::Absent, -32700, "Parse error")),
        Incoming::Request { id, method, params } => {
            if str_eq(method.as_str(), "initialize") {
                Outcome::Reply(Response::Success { id, payload: Payload::Capabilities })
            } else if str_eq(method.as_str(), "tools/list") {
                Outcome::Reply(
                    Response::Success { id, payload: Payload::ToolCatalog(tool_catalog()) },
                )
            } else if str_eq(method.as_str(), "tools/call") {
                match params {
                    Option::None => Outcome::Reply(failure(id, -32602, "Invalid params")),
                    Option::Some(p) => dispatch_tool_call(id, p),
                }
            } else {
                Outcome::Reply(failure(id, -32601, "Method not found"))
            }
        },
    }
}

fn dispatch_tool_call(id: ReqId, p: CallParams) -> (out: Outcome)
    ensures
        tool_call_spec(id, Option::Some(p), out),
{
    let tool = match &p.tool {
        Option::Some(t) => t,
        Option::None => {
            return Outcome::Reply(failure(id, -32602, "Missing tool name"));
        },
    };
    if str_eq(tool.as_str(), "search_crates") {
        match get_str_arg(&p.args, "query") {
            Option::None => Outcome::Reply(content_error(id, "Error: Missing 'query' parameter")),
            Option::Some(query) => {
                let limit = get_nat_arg(&p.args, "limit");
                match limit {
                    Option::Some(l) if l > 100 => Outcome::Reply(
                        content_error(id, "Error: Limit cannot exceed 100"),
                    ),
                    Option::Some(l) if l < 1 => Outcome::Reply(
                        content_error(id, "Error: Limit must be at least 1"),
                    ),
                    _ => Outcome::Invoke { id, action: ToolAction::Search { query, limit } },
                }
            },
        }
    } else if str_eq(tool.as_str(), "get_crate_info") {
        match get_str_arg(&p.args, "name") {
            Option::None => Outcome::Reply(content_error(id, "Error: Missing 'name' parameter")),
            Option::Some(name) => Outcome::Invoke { id, action: ToolAction::Info { name } },
        }
    } else if str_eq(tool.as_str(), "get_crate_versions") {
        match get_str_arg(&p.args, "name") {
            Option::None => Outcome::Reply(content_error(id, "Error: Missing 'name' parameter")),
            Option::Some(name) => {
                let limit = get_nat_arg(&p.args, "limit");
                match limit {
                    Option::Some(l) if l > 50 => Outcome::Reply(
                        content_error(id, "Error: Limit cannot exceed 50"),
                    ),
                    Option::Some(l) if l < 1 => Outcome::Reply(
                        content_error(id, "Error: Limit must be at least 1"),
                    ),
                    _ => Outcome::Invoke { id, action: ToolAction::VersionList { name, limit } },
                }
            },
        }
    } else if str_eq(tool.as_str(), "get_crate_dependencies") {
        match get_str_arg(&p.args, "name") {
            Option::None => Outcome::Reply(content_error(id, "Error: Missing 'name' parameter")),
            Option::Some(name) => {
                let version = get_str_arg(&p.args, "version");
                Outcome::Invoke { id, action: ToolAction::DependencyList { name, version } }
            },
        }
    } else if str_eq(tool.as_str(), "get_crate_documentation") {
        match get_str_arg(&p.args, "name") {
            Option::None => Outcome::Reply(content_error(id, "Error: Missing 'name' parameter")),
            Option::Some(name) => {
                let version = get_str_arg(&p.args, "version");
                Outcome::Invoke { id, action: ToolAction::Documentation { name, version } }
            },
        }
    } else {
        Outcome::Reply(failure(id, -32601, "Unknown tool"))
    }
}

/// Wrap what a backing client returned for an invoked action: plain content
/// on success, error-flagged content on an operation-level failure. The
/// envelope stays successful either way; only transport faults use the
/// error envelope.
pub fn wrap_tool_result(id: ReqId, result: Result<String, ClientError>) -> (r: Response)
    ensures
        match result {
            Result::Ok(text) => r matches Response::Success {
                id: i,
                payload: Payload::Content { text: tx, is_error },
            } && i == id && tx == text && !is_error,
            Result::Err(e) => r matches Response::Success {
                id: i,
                payload: Payload::Content { text: tx, is_error },
            } && i == id && tx@ == "Error: "@ + e.spec_message() && is_error,
        },
{
    match result {
        Result::Ok(text) => Response::Success {
            id,
            payload: Payload::Content { text, is_error: false },
        },
        Result::Err(e) => {
            let mut text = "Error: ".to_owned();
            text.append(e.message().as_str());
            Response::Success { id, payload: Payload::Content { text, is_error: true } }
        },
    }
}

/// The static capability descriptor returned to `initialize`.
pub open spec fn capabilities_json() -> Seq<char> {
    "{\"protocolVersion\":\"2024-11-05\",\"capabilities\":{\"tools\":{}},\"serverInfo\":{\"name\":\"crates_mcp\",\"version\":\"0.1.0\"}}"@
}

/// The rendering of a request id: absent ids echo as `null`.
pub open spec fn json_id(id: ReqId) -> Seq<char> {
    match id {
        ReqId::Absent => "null"@,
        ReqId::Num(n) => dec_int(n as int),
        ReqId::Text(s) => json_str(s@),
    }
}

/// The rendering of a success payload.
pub open spec fn json_payload(p: Payload) -> Seq<char> {
    match p {
        Payload::Capabilities => capabilities_json(),
        Payload::ToolCatalog(ts) => "{\"tools\":"@ + json_list(
            ts@.map_values(|t: ToolSpec| json_tool(t)),
        ) + "}"@,
        Payload::Content { text, is_error } => "{\"content\":[{\"type\":\"text\",\"text\":"@
            + json_str(text@) + "}]"@ + if is_error {
            ",\"isError\":true}"@
        } else {
            "}"@
        },
    }
}

/// The rendering of a whole response envelope, one line of output.
pub open spec fn json_response(r: Response) -> Seq<char> {
    match r {
        Response::Failure { id, code, message } => "{\"jsonrpc\":\"2.0\",\"id\":"@ + json_id(id)
            + ",\"error\":{\"code\":"@ + dec_int(code as int) + ",\"message\":"@ + json_str(
            message@,
        ) + "}}"@,
        Response::Success { id, payload } => "{\"jsonrpc\":\"2.0\",\"id\":"@ + json_id(id)
            + ",\"result\":"@ + json_payload(payload) + "}"@,
    }
}

fn push_id(out: &mut String, id: &ReqId)
    ensures
        final(out)@ == old(out)@ + json_id(*id),
{
    match id {
        ReqId::Absent => out.append("null"),
        ReqId::Num(n) => push_dec_i64(out, *n),
        ReqId::Text(s) => push_json_str(out, s.as_str()),
    }
}

fn push_payload(out: &mut String, p: &Payload)
    ensures
        final(out)@ == old(out)@ + json_payload(*p),
{
    match p {
        Payload::Capabilities => {
            out.append(
                "{\"protocolVersion\":\"2024-11-05\",\"capabilities\":{\"tools\":{}},\"serverInfo\":{\"name\":\"crates_mcp\",\"version\":\"0.1.0\"}}",
            );
        },
        Payload::ToolCatalog(ts) => {
            let ghost m = ts@.map_values(|t: ToolSpec| json_tool(t));
            out.append("{\"tools\":");
            out.append("[");
            let ghost head = out@;
            let mut i: usize = 0;
            while i < ts.len()
                invariant
                    i <= ts.len(),
                    m == ts@.map_values(|t: ToolSpec| json_tool(t)),
                    m.len() == ts@.len(),
                    out@ == head + join_comma(m.take(i as int)),
                decreases ts.len() - i,
            {
                if i > 0 {
                    out.append(",");
                }
                push_tool(out, &ts[i]);
                i += 1;
                proof {
                    let x = m.take(i as int);
                    assert(x.last() == m[i - 1]);
                    if i > 1 {
                        assert(x.drop_last() =~= m.take(i - 1));
                    }
                    assert(out@ =~= head + join_comma(x));
                }
            }
            out.append("]");
            out.append("}");
            proof {
                assert(m.take(ts@.len() as int) =~= m);
                assert(out@ =~= old(out)@ + json_payload(*p));
            }
        },
        Payload::Content { text, is_error } => {
            out.append("{\"content\":[{\"type\":\"text\",\"text\":");
            push_json_str(out, text.as_str());
            out.append("}]");
            if *is_error {
                out.append(",\"isError\":true}");
            } else {
                out.append("}");
            }
            proof {
                assert(out@ =~= old(out)@ + json_payload(*p));
            }
        },
    }
}

/// Render one response envelope to the line the transport writes.
pub fn render_response(r: &Response) -> (line: String)
    ensures
        line@ == json_response(*r),
{
    let mut out = String::new();
    match r {
        Response::Failure { id, code, message } => {
            out.append("{\"jsonrpc\":\"2.0\",\"id\":");
            push_id(&mut out, id);
            out.append(",\"error\":{\"code\":");
            push_dec_i64(&mut out, *code);
            out.append(",\"message\":");
            push_json_str(&mut out, message.as_str());
            out.append("}}");
            proof {
                assert(out@ =~= json_response(*r));
            }
        },
        Response::Success { id, payload } => {
            out.append("{\"jsonrpc\":\"2.0\",\"id\":");
            push_id(&mut out, id);
            out.append(",\"result\":");
            push_payload(&mut out, payload);
            out.append("}");
            proof {
                assert(out@ =~= json_response(*r));
            }
        },
    }
    out
}

} // verus!
