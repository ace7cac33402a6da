use local_dev_insights::capability::Answer;
use local_dev_insights::capability::Call;
use local_dev_insights::capability::SystemStats;
use local_dev_insights::json::parse_json;
use local_dev_insights::json::Json;
use local_dev_insights::mcp::parse;
use local_dev_insights::mcp::JsonRpcRequest;
use local_dev_insights::mcp::JsonRpcResponse;
use local_dev_insights::mcp::ParseFailure;
use local_dev_insights::mcp::INVALID_PARAMS;
use local_dev_insights::mcp::METHOD_NOT_FOUND;
use local_dev_insights::server::finish;
use local_dev_insights::server::finish_line;
use local_dev_insights::server::handle_initialize;
use local_dev_insights::server::handle_line;
use local_dev_insights::server::handle_message;
use local_dev_insights::server::handle_request;
use local_dev_insights::server::Dispatch;
use local_dev_insights::server::Invocation;
use local_dev_insights::server::LineStep;
use local_dev_insights::server::Method;

fn number(n: i64) -> Json {
    Json::Number(serde_json::Number::from(n))
}

fn request(method: &str, params: Option<Json>, id: Option<Json>) -> JsonRpcRequest {
    JsonRpcRequest { jsonrpc: "2.0".to_string(), method: method.to_string(), params, id }
}

fn stats() -> SystemStats {
    SystemStats {
        cpu_usage: "12.50".to_string(),
        memory_usage: "50.00".to_string(),
        used_memory: 8 * 1024 * 1024 * 1024,
        total_memory: 16 * 1024 * 1024 * 1024,
    }
}

/// The line that is written for a line that was read, with a collaborator
/// that gives `answer` to whatever call is made.
fn written(line: &str, answer: Answer) -> Option<String> {
    match handle_line(line) {
        LineStep::Write(reply) => Some(reply),
        LineStep::Invoke(invocation) => finish_line(invocation, answer),
        LineStep::Blank | LineStep::Malformed(_) | LineStep::Silent => None,
    }
}

const METHODS: [&str; 10] = [
    "initialize",
    "ping",
    "resources/list",
    "resources/read",
    "tools/list",
    "tools/call",
    "prompts/list",
    "prompts/get",
    "notifications/initialized",
    "no/such/method",
];

#[test]
fn ping_is_answered_with_an_empty_result() {
    let step = handle_line("{\"jsonrpc\":\"2.0\",\"id\":1,\"method\":\"ping\"}");
    assert_eq!(
        step,
        LineStep::Write("{\"jsonrpc\":\"2.0\",\"id\":1,\"result\":{}}".to_string())
    );
}

#[test]
fn initialized_notification_is_not_answered() {
    let step = handle_line("{\"jsonrpc\":\"2.0\",\"method\":\"notifications/initialized\"}");
    assert_eq!(step, LineStep::Silent);
}

#[test]
fn invalid_json_is_dropped_and_the_next_ping_is_answered() {
    assert_eq!(handle_line("not valid json"), LineStep::Malformed(ParseFailure::Syntax));
    assert_eq!(
        handle_line("{\"jsonrpc\":\"2.0\",\"id\":2,\"method\":\"ping\"}"),
        LineStep::Write("{\"jsonrpc\":\"2.0\",\"id\":2,\"result\":{}}".to_string())
    );
}

#[test]
fn initialize_names_exactly_the_three_kinds_of_capability() {
    let result = handle_initialize();
    let capabilities = result.get("capabilities").unwrap();
    assert_eq!(
        capabilities,
        &Json::object()
            .with("resources", Json::object())
            .with("tools", Json::object())
            .with("prompts", Json::object())
    );
    match capabilities {
        Json::Object(members) => {
            let mut keys: Vec<&str> = members.iter().map(|member| member.0.as_str()).collect();
            keys.sort();
            assert_eq!(keys, vec!["prompts", "resources", "tools"]);
        }
        other => panic!("capabilities are no object: {:?}", other),
    }
    assert_eq!(result.get_str("protocolVersion"), Some("2024-11-05"));
    let server_info = result.get("serverInfo").unwrap();
    assert_eq!(server_info.get_str("name"), Some("local-dev-insights"));
    assert_eq!(server_info.get_str("version"), Some("0.1.0"));
}

#[test]
fn initialize_is_answered_on_the_wire() {
    assert_eq!(
        handle_line("{\"jsonrpc\":\"2.0\",\"id\":\"a\",\"method\":\"initialize\",\"params\":{}}"),
        LineStep::Write(
            "{\"jsonrpc\":\"2.0\",\"id\":\"a\",\"result\":{\"capabilities\":{\"prompts\":{},\"resources\":{},\"tools\":{}},\"protocolVersion\":\"2024-11-05\",\"serverInfo\":{\"name\":\"local-dev-insights\",\"version\":\"0.1.0\"}}}"
                .to_string()
        )
    );
}

#[test]
fn every_request_gets_one_response_with_its_id() {
    let ids = ["1", "0", "-3", "2.5", "\"abc\"", "\"\"", "null", "true", "[1]", "{\"k\":1}"];
    for id in ids {
        for method in METHODS {
            if method == "notifications/initialized" {
                continue;
            }
            let line = format!(
                "{{\"jsonrpc\":\"2.0\",\"id\":{},\"method\":\"{}\",\"params\":{{\"name\":\"get_system_stats\",\"uri\":\"env://vars\"}}}}",
                id, method
            );
            let reply = written(&line, Answer::Failed("down".to_string()));
            let reply = reply.unwrap_or_else(|| panic!("no response to {}", line));
            assert!(!reply.contains('\n'));
            assert!(
                reply.starts_with(&format!("{{\"jsonrpc\":\"2.0\",\"id\":{},", id)),
                "{} answered by {}",
                line,
                reply
            );
            let read = parse_json(&reply).unwrap();
            assert_eq!(read.get("id"), Some(&parse_json(id).unwrap()));
            assert_eq!(read.get_str("jsonrpc"), Some("2.0"));
            assert!(read.get("result").is_some() != read.get("error").is_some());
        }
    }
}

#[test]
fn a_request_for_the_acknowledgement_is_not_answered_either() {
    let line = "{\"jsonrpc\":\"2.0\",\"id\":1,\"method\":\"notifications/initialized\"}";
    assert_eq!(handle_line(line), LineStep::Silent);
}

#[test]
fn no_notification_is_answered() {
    for method in METHODS {
        let line = format!(
            "{{\"jsonrpc\":\"2.0\",\"method\":\"{}\",\"params\":{{\"name\":\"get_system_stats\",\"uri\":\"env://vars\"}}}}",
            method
        );
        assert_eq!(written(&line, Answer::Stats(stats())), None, "{}", line);
        assert_eq!(written(&line, Answer::Settings(None)), None, "{}", line);
        assert_eq!(written(&line, Answer::Failed("down".to_string())), None, "{}", line);
    }
}

#[test]
fn a_notification_with_bad_parameters_is_not_answered() {
    assert_eq!(
        handle_line("{\"jsonrpc\":\"2.0\",\"method\":\"tools/call\",\"params\":{\"name\":\"nope\"}}"),
        LineStep::Silent
    );
    assert_eq!(
        handle_line("{\"jsonrpc\":\"2.0\",\"method\":\"resources/read\"}"),
        LineStep::Silent
    );
}

#[test]
fn the_call_of_a_notification_is_still_made() {
    let line = "{\"jsonrpc\":\"2.0\",\"method\":\"tools/call\",\"params\":{\"name\":\"add_memo\",\"arguments\":{\"content\":\"x\"}}}";
    let invocation = Invocation {
        id: None,
        call: Call::AddMemo { content: "x".to_string(), tags: Vec::new() },
    };
    assert_eq!(handle_line(line), LineStep::Invoke(invocation));
    let invocation = Invocation {
        id: None,
        call: Call::AddMemo { content: "x".to_string(), tags: Vec::new() },
    };
    assert_eq!(finish_line(invocation, Answer::MemoAdded(1)), None);
}

#[test]
fn no_malformed_line_is_answered() {
    let lines = [
        "not valid json",
        "{",
        "[]",
        "42",
        "\"ping\"",
        "{\"id\":1,\"method\":\"ping\"}",
        "{\"jsonrpc\":\"2.0\",\"id\":1}",
        "{\"jsonrpc\":\"2.0\",\"id\":1,\"method\":null}",
        "{\"jsonrpc\":2.0,\"id\":1,\"method\":\"ping\"}",
        "{\"jsonrpc\":\"2.0\",\"id\":1,\"method\":\"ping\"} trailing",
    ];
    for line in lines {
        match handle_line(line) {
            LineStep::Malformed(_) => {}
            other => panic!("{} gave {:?}", line, other),
        }
        assert_eq!(written(line, Answer::Settings(None)), None);
        assert_eq!(
            handle_line("{\"jsonrpc\":\"2.0\",\"id\":2,\"method\":\"ping\"}"),
            LineStep::Write("{\"jsonrpc\":\"2.0\",\"id\":2,\"result\":{}}".to_string())
        );
    }
}

#[test]
fn malformed_lines_say_what_is_wrong() {
    assert_eq!(handle_line("{"), LineStep::Malformed(ParseFailure::Syntax));
    assert_eq!(handle_line("[]"), LineStep::Malformed(ParseFailure::NotAnObject));
    assert_eq!(
        handle_line("{\"id\":1,\"method\":\"ping\"}"),
        LineStep::Malformed(ParseFailure::MissingProtocolTag)
    );
    assert_eq!(
        handle_line("{\"jsonrpc\":\"2.0\",\"id\":1}"),
        LineStep::Malformed(ParseFailure::MissingMethod)
    );
}

#[test]
fn blank_lines_are_passed_over() {
    assert_eq!(handle_line(""), LineStep::Blank);
    assert_eq!(handle_line("   "), LineStep::Blank);
    assert_eq!(handle_line("\t \r"), LineStep::Blank);
}

#[test]
fn a_line_may_be_padded_with_whitespace() {
    assert_eq!(
        handle_line("  {\"jsonrpc\":\"2.0\", \"id\": 5, \"method\": \"ping\"}\r"),
        LineStep::Write("{\"jsonrpc\":\"2.0\",\"id\":5,\"result\":{}}".to_string())
    );
}

#[test]
fn an_unknown_method_is_reported_to_a_request_only() {
    assert_eq!(
        handle_line("{\"jsonrpc\":\"2.0\",\"id\":3,\"method\":\"nope\"}"),
        LineStep::Write(
            "{\"jsonrpc\":\"2.0\",\"id\":3,\"error\":{\"code\":-32601,\"message\":\"Method not found: nope\"}}"
                .to_string()
        )
    );
    assert_eq!(
        handle_line("{\"jsonrpc\":\"2.0\",\"method\":\"nope\"}"),
        LineStep::Silent
    );
    assert_eq!(
        handle_request(request("resources/write", None, Some(Json::Null))),
        Dispatch::Reply(JsonRpcResponse::error(
            Json::Null,
            METHOD_NOT_FOUND,
            "Method not found: resources/write".to_string(),
            None
        ))
    );
}

#[test]
fn method_names_are_matched_exactly() {
    assert_eq!(Method::named("initialize"), Method::Initialize);
    assert_eq!(Method::named("ping"), Method::Ping);
    assert_eq!(Method::named("resources/list"), Method::ResourcesList);
    assert_eq!(Method::named("resources/read"), Method::ResourcesRead);
    assert_eq!(Method::named("tools/list"), Method::ToolsList);
    assert_eq!(Method::named("tools/call"), Method::ToolsCall);
    assert_eq!(Method::named("prompts/list"), Method::PromptsList);
    assert_eq!(Method::named("prompts/get"), Method::PromptsGet);
    assert_eq!(Method::named("notifications/initialized"), Method::Initialized);
    assert_eq!(Method::named("Ping"), Method::Unknown);
    assert_eq!(Method::named("ping "), Method::Unknown);
    assert_eq!(Method::named(""), Method::Unknown);
    assert_eq!(Method::named("tools"), Method::Unknown);
}

#[test]
fn an_unregistered_tool_is_named_in_the_error() {
    assert_eq!(
        handle_line(
            "{\"jsonrpc\":\"2.0\",\"id\":4,\"method\":\"tools/call\",\"params\":{\"name\":\"launch\"}}"
        ),
        LineStep::Write(
            "{\"jsonrpc\":\"2.0\",\"id\":4,\"error\":{\"code\":-32602,\"message\":\"Tool not found: launch\"}}"
                .to_string()
        )
    );
    assert_eq!(
        handle_request(request("tools/call", None, Some(number(4)))),
        Dispatch::Reply(JsonRpcResponse::error(
            number(4),
            INVALID_PARAMS,
            "Tool not found: ".to_string(),
            None
        ))
    );
}

#[test]
fn an_unregistered_prompt_is_named_in_the_error() {
    assert_eq!(
        handle_line(
            "{\"jsonrpc\":\"2.0\",\"id\":4,\"method\":\"prompts/get\",\"params\":{\"name\":\"haiku\"}}"
        ),
        LineStep::Write(
            "{\"jsonrpc\":\"2.0\",\"id\":4,\"error\":{\"code\":-32602,\"message\":\"Prompt not found: haiku\"}}"
                .to_string()
        )
    );
}

#[test]
fn an_unregistered_resource_is_named_in_the_error() {
    assert_eq!(
        handle_line(
            "{\"jsonrpc\":\"2.0\",\"id\":4,\"method\":\"resources/read\",\"params\":{\"uri\":\"db://users\"}}"
        ),
        LineStep::Write(
            "{\"jsonrpc\":\"2.0\",\"id\":4,\"error\":{\"code\":-32602,\"message\":\"Resource not found: db://users\"}}"
                .to_string()
        )
    );
}

#[test]
fn missing_parameters_are_reported_as_invalid() {
    assert_eq!(
        handle_line("{\"jsonrpc\":\"2.0\",\"id\":4,\"method\":\"resources/read\"}"),
        LineStep::Write(
            "{\"jsonrpc\":\"2.0\",\"id\":4,\"error\":{\"code\":-32602,\"message\":\"Missing params\"}}"
                .to_string()
        )
    );
    assert_eq!(
        handle_line("{\"jsonrpc\":\"2.0\",\"id\":4,\"method\":\"resources/read\",\"params\":{}}"),
        LineStep::Write(
            "{\"jsonrpc\":\"2.0\",\"id\":4,\"error\":{\"code\":-32602,\"message\":\"Missing uri parameter\"}}"
                .to_string()
        )
    );
    assert_eq!(
        handle_line(
            "{\"jsonrpc\":\"2.0\",\"id\":4,\"method\":\"tools/call\",\"params\":{\"name\":\"add_memo\"}}"
        ),
        LineStep::Write(
            "{\"jsonrpc\":\"2.0\",\"id\":4,\"error\":{\"code\":-32602,\"message\":\"Missing content\"}}"
                .to_string()
        )
    );
    assert_eq!(
        handle_line(
            "{\"jsonrpc\":\"2.0\",\"id\":4,\"method\":\"tools/call\",\"params\":{\"name\":\"list_files_by_extension\",\"arguments\":{\"extension\":7}}}"
        ),
        LineStep::Write(
            "{\"jsonrpc\":\"2.0\",\"id\":4,\"error\":{\"code\":-32602,\"message\":\"Missing extension\"}}"
                .to_string()
        )
    );
}

#[test]
fn the_lists_are_answered_at_once() {
    assert_eq!(
        handle_line("{\"jsonrpc\":\"2.0\",\"id\":3,\"method\":\"tools/list\"}"),
        LineStep::Write(
            "{\"jsonrpc\":\"2.0\",\"id\":3,\"result\":{\"tools\":[{\"description\":\"Add a new development memo to the database\",\"inputSchema\":{\"properties\":{\"content\":{\"description\":\"Content of the memo\",\"type\":\"string\"},\"tags\":{\"description\":\"Tags for the memo\",\"items\":{\"type\":\"string\"},\"type\":\"array\"}},\"required\":[\"content\"],\"type\":\"object\"},\"name\":\"add_memo\"},{\"description\":\"Get current system statistics (CPU, Memory)\",\"inputSchema\":{\"properties\":{},\"type\":\"object\"},\"name\":\"get_system_stats\"},{\"description\":\"Recursively list files with a specific extension in the current directory\",\"inputSchema\":{\"properties\":{\"extension\":{\"description\":\"File extension (e.g., 'rs', 'md')\",\"type\":\"string\"}},\"required\":[\"extension\"],\"type\":\"object\"},\"name\":\"list_files_by_extension\"}]}}"
                .to_string()
        )
    );
    assert_eq!(
        handle_line("{\"jsonrpc\":\"2.0\",\"id\":3,\"method\":\"resources/list\"}"),
        LineStep::Write(
            "{\"jsonrpc\":\"2.0\",\"id\":3,\"result\":{\"resources\":[{\"description\":\"List of all development memos stored in the database\",\"mimeType\":\"application/json\",\"name\":\"Development Memos\",\"uri\":\"db://memos\"},{\"description\":\"Environment variables from .env file\",\"mimeType\":\"application/json\",\"name\":\"Environment Variables\",\"uri\":\"env://vars\"}]}}"
                .to_string()
        )
    );
    assert_eq!(
        handle_line("{\"jsonrpc\":\"2.0\",\"id\":3,\"method\":\"prompts/list\"}"),
        LineStep::Write(
            "{\"jsonrpc\":\"2.0\",\"id\":3,\"result\":{\"prompts\":[{\"arguments\":[],\"description\":\"Analyze system health based on current stats\",\"name\":\"analyze-health\"}]}}"
                .to_string()
        )
    );
}

#[test]
fn a_tool_call_waits_for_its_collaborator() {
    let line = "{\"jsonrpc\":\"2.0\",\"id\":8,\"method\":\"tools/call\",\"params\":{\"name\":\"get_system_stats\"}}";
    let step = handle_line(line);
    assert_eq!(
        step,
        LineStep::Invoke(Invocation { id: Some(number(8)), call: Call::SystemStats })
    );
    let reply = match step {
        LineStep::Invoke(invocation) => finish_line(invocation, Answer::Stats(stats())),
        other => panic!("unexpected step: {:?}", other),
    };
    assert_eq!(
        reply,
        Some(
            "{\"jsonrpc\":\"2.0\",\"id\":8,\"result\":{\"content\":[{\"text\":\"CPU Usage: 12.50%\\nMemory Usage: 50.00% (Used: 8192 MB / Total: 16384 MB)\",\"type\":\"text\"}]}}"
                .to_string()
        )
    );
}

#[test]
fn a_collaborator_that_fails_is_reported_as_invalid_params() {
    let invocation = Invocation { id: Some(Json::text("r")), call: Call::ReadMemos };
    assert_eq!(
        finish(invocation, Answer::Failed("database is locked".to_string())),
        Some(JsonRpcResponse::error(
            Json::text("r"),
            INVALID_PARAMS,
            "database is locked".to_string(),
            None
        ))
    );
    let invocation = Invocation { id: Some(Json::text("r")), call: Call::ReadMemos };
    assert_eq!(
        finish_line(invocation, Answer::Failed("database is locked".to_string())),
        Some(
            "{\"jsonrpc\":\"2.0\",\"id\":\"r\",\"error\":{\"code\":-32602,\"message\":\"database is locked\"}}"
                .to_string()
        )
    );
}

#[test]
fn an_answer_of_the_wrong_kind_fails_the_call() {
    let invocation = Invocation { id: Some(number(1)), call: Call::ReadMemos };
    assert_eq!(
        finish(invocation, Answer::MemoAdded(3)),
        Some(JsonRpcResponse::error(
            number(1),
            INVALID_PARAMS,
            "Unexpected answer from the collaborator".to_string(),
            None
        ))
    );
}

#[test]
fn a_message_is_handled_like_its_line() {
    let line = "{\"jsonrpc\":\"2.0\",\"id\":11,\"method\":\"prompts/get\",\"params\":{\"name\":\"analyze-health\"}}";
    assert_eq!(handle_message(parse(line).unwrap()), handle_line(line));
    assert_eq!(
        handle_message(request("ping", None, Some(number(1)))),
        LineStep::Write("{\"jsonrpc\":\"2.0\",\"id\":1,\"result\":{}}".to_string())
    );
    assert_eq!(handle_message(request("ping", None, None)), LineStep::Silent);
}

#[test]
fn the_dispatcher_hands_out_the_call_with_the_id() {
    let params = Json::object()
        .with("name", Json::text("list_files_by_extension"))
        .with("arguments", Json::object().with("extension", Json::text("rs")));
    assert_eq!(
        handle_request(request("tools/call", Some(params), Some(Json::Null))),
        Dispatch::Invoke(Invocation {
            id: Some(Json::Null),
            call: Call::ListFiles { extension: "rs".to_string() }
        })
    );
    let params = Json::object().with("uri", Json::text("db://memos"));
    assert_eq!(
        handle_request(request("resources/read", Some(params), None)),
        Dispatch::Invoke(Invocation { id: None, call: Call::ReadMemos })
    );
    assert_eq!(handle_request(request("ping", None, None)), Dispatch::Silent);
    assert_eq!(
        handle_request(request("ping", None, Some(number(1)))),
        Dispatch::Reply(JsonRpcResponse::success(number(1), Json::object()))
    );
}
