use crates_mcp::dispatch::{
    dispatch, render_response, wrap_tool_result, ArgValue, CallArg, CallParams, Incoming, Outcome,
    Payload, ReqId, Response, ToolAction,
};
use crates_mcp::errors::ClientError;

fn request(id: ReqId, method: &str, params: Option<CallParams>) -> Incoming {
    Incoming::Request { id, method: method.to_string(), params }
}

fn call(tool: &str, args: Vec<(&str, ArgValue)>) -> Option<CallParams> {
    Some(CallParams {
        tool: Some(tool.to_string()),
        args: args
            .into_iter()
            .map(|(n, v)| CallArg { name: n.to_string(), value: v })
            .collect(),
    })
}

#[test]
fn tools_list_names_exactly_the_five() {
    let out = dispatch(request(ReqId::Num(1), "tools/list", None));
    let ts = match out {
        Outcome::Reply(Response::Success { id: ReqId::Num(1), payload: Payload::ToolCatalog(ts) }) => ts,
        _ => panic!("expected the tool catalog"),
    };
    let mut names: Vec<String> = ts.iter().map(|t| t.name.clone()).collect();
    names.sort();
    let mut expected = vec![
        "search_crates".to_string(),
        "get_crate_info".to_string(),
        "get_crate_versions".to_string(),
        "get_crate_dependencies".to_string(),
        "get_crate_documentation".to_string(),
    ];
    expected.sort();
    assert_eq!(names, expected);
}

#[test]
fn unknown_method_is_a_transport_error() {
    let out = dispatch(request(ReqId::Num(7), "bogus/method", None));
    match out {
        Outcome::Reply(Response::Failure { id: ReqId::Num(7), code, message }) => {
            assert_eq!(code, -32601);
            assert_eq!(message, "Method not found");
        }
        _ => panic!("expected a transport error"),
    }
    // The dispatcher is stateless per line: the next request still works.
    let out = dispatch(request(ReqId::Num(8), "initialize", None));
    assert!(matches!(
        out,
        Outcome::Reply(Response::Success { id: ReqId::Num(8), payload: Payload::Capabilities })
    ));
}

#[test]
fn missing_query_is_error_flagged_content() {
    let out = dispatch(request(ReqId::Num(2), "tools/call", call("search_crates", vec![])));
    match out {
        Outcome::Reply(Response::Success {
            payload: Payload::Content { text, is_error }, ..
        }) => {
            assert!(is_error);
            assert_eq!(text, "Error: Missing 'query' parameter");
        }
        _ => panic!("expected error-flagged content, not a transport error"),
    }
}

#[test]
fn wrong_typed_query_reads_as_missing() {
    let out = dispatch(request(
        ReqId::Num(2),
        "tools/call",
        call("search_crates", vec![("query", ArgValue::Nat(3))]),
    ));
    match out {
        Outcome::Reply(Response::Success { payload: Payload::Content { text, is_error }, .. }) => {
            assert!(is_error);
            assert_eq!(text, "Error: Missing 'query' parameter");
        }
        _ => panic!("expected error-flagged content"),
    }
}

#[test]
fn oversized_limit_is_refused() {
    let out = dispatch(request(
        ReqId::Num(3),
        "tools/call",
        call(
            "search_crates",
            vec![("query", ArgValue::Text("serde".to_string())), ("limit", ArgValue::Nat(101))],
        ),
    ));
    match out {
        Outcome::Reply(Response::Success { payload: Payload::Content { text, is_error }, .. }) => {
            assert!(is_error);
            assert_eq!(text, "Error: Limit cannot exceed 100");
        }
        _ => panic!("expected error-flagged content"),
    }
}

#[test]
fn zero_limit_is_refused() {
    let out = dispatch(request(
        ReqId::Num(3),
        "tools/call",
        call(
            "search_crates",
            vec![("query", ArgValue::Text("serde".to_string())), ("limit", ArgValue::Nat(0))],
        ),
    ));
    match out {
        Outcome::Reply(Response::Success { payload: Payload::Content { text, is_error }, .. }) => {
            assert!(is_error);
            assert_eq!(text, "Error: Limit must be at least 1");
        }
        _ => panic!("expected error-flagged content"),
    }
}

#[test]
fn versions_limit_bounds_are_enforced() {
    let out = dispatch(request(
        ReqId::Num(3),
        "tools/call",
        call(
            "get_crate_versions",
            vec![("name", ArgValue::Text("serde".to_string())), ("limit", ArgValue::Nat(51))],
        ),
    ));
    match out {
        Outcome::Reply(Response::Success { payload: Payload::Content { text, is_error }, .. }) => {
            assert!(is_error);
            assert_eq!(text, "Error: Limit cannot exceed 50");
        }
        _ => panic!("expected error-flagged content"),
    }
    let out = dispatch(request(
        ReqId::Num(3),
        "tools/call",
        call(
            "get_crate_versions",
            vec![("name", ArgValue::Text("serde".to_string())), ("limit", ArgValue::Nat(0))],
        ),
    ));
    match out {
        Outcome::Reply(Response::Success { payload: Payload::Content { text, is_error }, .. }) => {
            assert!(is_error);
            assert_eq!(text, "Error: Limit must be at least 1");
        }
        _ => panic!("expected error-flagged content"),
    }
    let out = dispatch(request(
        ReqId::Num(3),
        "tools/call",
        call(
            "get_crate_versions",
            vec![("name", ArgValue::Text("serde".to_string())), ("limit", ArgValue::Nat(50))],
        ),
    ));
    match out {
        Outcome::Invoke { action: ToolAction::VersionList { name, limit }, .. } => {
            assert_eq!(name, "serde");
            assert_eq!(limit, Some(50));
        }
        _ => panic!("expected an invocation"),
    }
}

#[test]
fn valid_search_call_invokes() {
    let out = dispatch(request(
        ReqId::Num(4),
        "tools/call",
        call(
            "search_crates",
            vec![("query", ArgValue::Text("serde".to_string())), ("limit", ArgValue::Nat(5))],
        ),
    ));
    match out {
        Outcome::Invoke { id: ReqId::Num(4), action: ToolAction::Search { query, limit } } => {
            assert_eq!(query, "serde");
            assert_eq!(limit, Some(5));
        }
        _ => panic!("expected an invocation"),
    }
}

#[test]
fn dependencies_call_passes_optional_version() {
    let out = dispatch(request(
        ReqId::Absent,
        "tools/call",
        call(
            "get_crate_dependencies",
            vec![
                ("name", ArgValue::Text("serde".to_string())),
                ("version", ArgValue::Text("1.0.0".to_string())),
            ],
        ),
    ));
    match out {
        Outcome::Invoke { action: ToolAction::DependencyList { name, version }, .. } => {
            assert_eq!(name, "serde");
            assert_eq!(version.as_deref(), Some("1.0.0"));
        }
        _ => panic!("expected an invocation"),
    }
}

#[test]
fn unknown_tool_is_a_transport_error() {
    let out = dispatch(request(ReqId::Num(5), "tools/call", call("bogus_tool", vec![])));
    match out {
        Outcome::Reply(Response::Failure { code, message, .. }) => {
            assert_eq!(code, -32601);
            assert_eq!(message, "Unknown tool");
        }
        _ => panic!("expected a transport error"),
    }
}

#[test]
fn missing_params_and_missing_tool_name() {
    let out = dispatch(request(ReqId::Num(6), "tools/call", None));
    match out {
        Outcome::Reply(Response::Failure { code, message, .. }) => {
            assert_eq!(code, -32602);
            assert_eq!(message, "Invalid params");
        }
        _ => panic!("expected a transport error"),
    }
    let out = dispatch(request(
        ReqId::Num(6),
        "tools/call",
        Some(CallParams { tool: None, args: Vec::new() }),
    ));
    match out {
        Outcome::Reply(Response::Failure { code, message, .. }) => {
            assert_eq!(code, -32602);
            assert_eq!(message, "Missing tool name");
        }
        _ => panic!("expected a transport error"),
    }
}

#[test]
fn malformed_line_then_well_formed_line() {
    // The malformed line gets a parse-error envelope ...
    let first = dispatch(Incoming::Malformed);
    let first_line = match first {
        Outcome::Reply(r) => render_response(&r),
        _ => panic!("expected a reply"),
    };
    assert_eq!(
        first_line,
        "{\"jsonrpc\":\"2.0\",\"id\":null,\"error\":{\"code\":-32700,\"message\":\"Parse error\"}}"
    );
    // ... and the next line is still answered, in order.
    let second = dispatch(request(ReqId::Num(1), "initialize", None));
    let second_line = match second {
        Outcome::Reply(r) => render_response(&r),
        _ => panic!("expected a reply"),
    };
    assert_eq!(
        second_line,
        "{\"jsonrpc\":\"2.0\",\"id\":1,\"result\":{\"protocolVersion\":\"2024-11-05\",\"capabilities\":{\"tools\":{}},\"serverInfo\":{\"name\":\"crates_mcp\",\"version\":\"0.1.0\"}}}"
    );
}

#[test]
fn handler_results_stay_in_the_success_envelope() {
    let ok = wrap_tool_result(ReqId::Num(9), Ok("[1]".to_string()));
    assert_eq!(
        render_response(&ok),
        "{\"jsonrpc\":\"2.0\",\"id\":9,\"result\":{\"content\":[{\"type\":\"text\",\"text\":\"[1]\"}]}}"
    );
    let err = wrap_tool_result(
        ReqId::Text("abc".to_string()),
        Err(ClientError::NotFound("Version not found".to_string())),
    );
    assert_eq!(
        render_response(&err),
        "{\"jsonrpc\":\"2.0\",\"id\":\"abc\",\"result\":{\"content\":[{\"type\":\"text\",\"text\":\"Error: Version not found\"}],\"isError\":true}}"
    );
}

#[test]
fn tool_catalog_rendering_carries_schemas() {
    let out = dispatch(request(ReqId::Num(1), "tools/list", None));
    let line = match out {
        Outcome::Reply(r) => render_response(&r),
        _ => panic!("expected a reply"),
    };
    assert!(line.starts_with("{\"jsonrpc\":\"2.0\",\"id\":1,\"result\":{\"tools\":["));
    assert!(line.contains(
        "{\"name\":\"search_crates\",\"description\":\"Search for Rust crates on crates.io\",\"inputSchema\":{\"type\":\"object\",\"properties\":{\"query\":{\"type\":\"string\",\"description\":\"Search query for crates\"},\"limit\":{\"type\":\"integer\",\"description\":\"Maximum number of results to return (default: 10, max: 100)\",\"minimum\":1,\"maximum\":100}},\"required\":[\"query\"]}}"
    ));
    assert!(line.contains("\"get_crate_documentation\""));
    assert!(line.ends_with("]}}"));
}
