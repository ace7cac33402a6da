//! What holds of the engine for every message and every line.

use crate::capability::AnswerView;
use crate::capability::CallView;
use crate::json::rendered;
use crate::json::string_member;
use crate::json::JsonView;
use crate::mcp::error_response;
use crate::mcp::response_text;
use crate::mcp::RequestView;
use crate::mcp::INVALID_PARAMS;
use crate::mcp::METHOD_NOT_FOUND;
use crate::prompts::plan_prompt;
use crate::resources::plan_read;
use crate::server::capability_name;
use crate::server::dispatch;
use crate::server::initialize_result;
use crate::server::line_reply;
use crate::server::line_step;
use crate::server::message_of;
use crate::server::reply_to;
use crate::server::method_named;
use crate::server::response_to;
use crate::server::DispatchView;
use crate::server::Method;
use crate::tools::plan_tool;
use vstd::prelude::*;

verus! {

/// Every name of the dispatch table stands for its own handler.
pub proof fn lemma_method_table()
    ensures
        method_named("initialize"@) == Method::Initialize,
        method_named("ping"@) == Method::Ping,
        method_named("resources/list"@) == Method::ResourcesList,
        method_named("resources/read"@) == Method::ResourcesRead,
        method_named("tools/list"@) == Method::ToolsList,
        method_named("tools/call"@) == Method::ToolsCall,
        method_named("prompts/list"@) == Method::PromptsList,
        method_named("prompts/get"@) == Method::PromptsGet,
        method_named("notifications/initialized"@) == Method::Initialized,
{
    reveal_strlit("initialize");
    reveal_strlit("ping");
    reveal_strlit("resources/list");
    reveal_strlit("resources/read");
    reveal_strlit("tools/list");
    reveal_strlit("tools/call");
    reveal_strlit("prompts/list");
    reveal_strlit("prompts/get");
    reveal_strlit("notifications/initialized");
    assert("resources/list"@.len() == 14);
    assert("resources/read"@.len() == 14);
    assert("prompts/list"@.len() == 12);
    assert("prompts/get"@.len() == 11);
    assert("notifications/initialized"@.len() == 25);
    assert("initialize"@[0] != "tools/list"@[0]);
    assert("initialize"@[0] != "tools/call"@[0]);
    assert("tools/list"@[6] != "tools/call"@[6]);
    assert("resources/list"@[10] != "resources/read"@[10]);
}

/// The result of `initialize` names exactly three kinds of capability:
/// resources, tools and prompts.
pub proof fn lemma_initialize_capabilities()
    ensures
        initialize_result().get("capabilities"@) is Some,
        initialize_result().get("capabilities"@)->0 is Object,
        initialize_result().get("capabilities"@)->0->Object_0.dom() =~= set![
            "resources"@,
            "tools"@,
            "prompts"@,
        ],
{
    reveal_strlit("capabilities");
    reveal_strlit("serverInfo");
    assert("capabilities"@.len() != "serverInfo"@.len());
}

/// A request, that is a message with an id, gets exactly one response, and
/// the response carries the id of the request as it came, JSON `null`
/// included. This holds for every method but the acknowledgement of the
/// handshake, which is never answered, and whatever a collaborator
/// answers.
pub proof fn lemma_request_is_answered(request: RequestView, answer: AnswerView)
    requires
        request.id is Some,
        request.method != "notifications/initialized"@,
    ensures
        response_to(request, answer) is Some,
        response_to(request, answer)->0.id == request.id->0,
{
}

/// A notification, that is a message without an id, gets no response,
/// whether its method is known, unknown or the acknowledgement of the
/// handshake, and whatever a collaborator answers.
pub proof fn lemma_notification_is_not_answered(request: RequestView, answer: AnswerView)
    requires
        request.id is None,
    ensures
        response_to(request, answer) is None,
{
}

/// The acknowledgement of the handshake gets no response, with or without
/// an id.
pub proof fn lemma_acknowledgement_is_not_answered(request: RequestView, answer: AnswerView)
    requires
        request.method == "notifications/initialized"@,
    ensures
        response_to(request, answer) is None,
{
    lemma_method_table();
}

/// For a line that holds a request, exactly one line is written, and it is
/// the wire form of a response with the id of the request: it begins with
/// the protocol tag and the id as the JSON writer sets it. As for the
/// messages themselves, the acknowledgement of the handshake is the one
/// method for which this does not hold.
pub proof fn lemma_request_line_is_answered(line: Seq<char>, answer: AnswerView)
    requires
        message_of(line) is Some,
        message_of(line)->0.id is Some,
        message_of(line)->0.method != "notifications/initialized"@,
    ensures
        ({
            let request = message_of(line)->0;
            let response = response_to(request, answer)->0;
            &&& line_reply(line, answer) == Some(response_text(response))
            &&& response.id == request.id->0
            &&& "{\"jsonrpc\":\"2.0\",\"id\":"@.add(rendered(request.id->0)).is_prefix_of(
                response_text(response),
            )
        }),
{
}

/// For a line that holds a notification, no line is written.
pub proof fn lemma_notification_line_is_not_answered(line: Seq<char>, answer: AnswerView)
    requires
        message_of(line) is Some,
        message_of(line)->0.id is None,
    ensures
        line_reply(line, answer) is None,
{
}

/// For a line that holds no message, because it is blank or cannot be read
/// as one, no line is written and no call is made.
pub proof fn lemma_malformed_line_is_dropped(line: Seq<char>, answer: AnswerView)
    requires
        message_of(line) is None,
    ensures
        line_step(line) is Blank || line_step(line) is Malformed,
        line_reply(line, answer) is None,
{
}

/// An error is of one of two classes, "method not found" or "invalid
/// params", and carries no data.
pub proof fn lemma_errors_are_of_two_classes(request: RequestView, answer: AnswerView)
    requires
        response_to(request, answer) is Some,
        response_to(request, answer)->0.outcome is Err,
    ensures
        ({
            let error = response_to(request, answer)->0.outcome->Err_0;
            &&& error.code == METHOD_NOT_FOUND || error.code == INVALID_PARAMS
            &&& error.data is None
        }),
{
}

/// A request for a method that the table does not hold is answered with the
/// error "method not found", and the message names the method.
pub proof fn lemma_unknown_method(request: RequestView)
    requires
        request.id is Some,
        method_named(request.method) == Method::Unknown,
    ensures
        dispatch(request) == DispatchView::Reply(
            error_response(
                request.id->0,
                METHOD_NOT_FOUND as int,
                "Method not found: "@ + request.method,
                None,
            ),
        ),
{
}

/// Invoking a tool under a name that is not registered fails, whatever the
/// arguments, and the failure names the tool.
pub proof fn lemma_unregistered_tool_fails(name: Seq<char>, arguments: Option<JsonView>)
    requires
        name != "add_memo"@,
        name != "get_system_stats"@,
        name != "list_files_by_extension"@,
    ensures
        plan_tool(name, arguments) == Err::<CallView, Seq<char>>("Tool not found: "@ + name),
{
}

/// Getting a prompt under a name that is not registered fails, and the
/// failure names the prompt.
pub proof fn lemma_unregistered_prompt_fails(name: Seq<char>)
    requires
        name != "analyze-health"@,
    ensures
        plan_prompt(name) == Err::<CallView, Seq<char>>("Prompt not found: "@ + name),
{
}

/// Reading a resource under a uri that is not registered fails, and the
/// failure names the uri.
pub proof fn lemma_unregistered_resource_fails(params: JsonView, uri: Seq<char>)
    requires
        string_member(params, "uri"@) == Some(uri),
        uri != "db://memos"@,
        uri != "env://vars"@,
    ensures
        plan_read(Some(params)) == Err::<CallView, Seq<char>>("Resource not found: "@ + uri),
{
}

/// A failure of a capability reaches the request as an error of the class
/// "invalid params" with the text of the failure as its message, and
/// reaches a notification not at all.
pub proof fn lemma_failures_are_invalid_params(id: Option<JsonView>, reason: Seq<char>)
    ensures
        reply_to(id, Err(reason)) == match id {
            Some(id) => Some(error_response(id, INVALID_PARAMS as int, reason, None)),
            None => None,
        },
{
}

/// Calling a tool under a name that is not registered is answered with an
/// error of the class "invalid params", and the message names the tool.
pub proof fn lemma_unregistered_tool(request: RequestView)
    requires
        request.id is Some,
        request.method == "tools/call"@,
        capability_name(request.params) != "add_memo"@,
        capability_name(request.params) != "get_system_stats"@,
        capability_name(request.params) != "list_files_by_extension"@,
    ensures
        dispatch(request) == DispatchView::Reply(
            error_response(
                request.id->0,
                INVALID_PARAMS as int,
                "Tool not found: "@ + capability_name(request.params),
                None,
            ),
        ),
{
    lemma_method_table();
}

/// Getting a prompt under a name that is not registered is answered with an
/// error of the class "invalid params", and the message names the prompt.
pub proof fn lemma_unregistered_prompt(request: RequestView)
    requires
        request.id is Some,
        request.method == "prompts/get"@,
        capability_name(request.params) != "analyze-health"@,
    ensures
        dispatch(request) == DispatchView::Reply(
            error_response(
                request.id->0,
                INVALID_PARAMS as int,
                "Prompt not found: "@ + capability_name(request.params),
                None,
            ),
        ),
{
    lemma_method_table();
}

/// Reading a resource under a uri that is not registered is answered with
/// an error of the class "invalid params", and the message names the uri.
pub proof fn lemma_unregistered_resource(request: RequestView, uri: Seq<char>)
    requires
        request.id is Some,
        request.method == "resources/read"@,
        request.params is Some,
        string_member(request.params->0, "uri"@) == Some(uri),
        uri != "db://memos"@,
        uri != "env://vars"@,
    ensures
        dispatch(request) == DispatchView::Reply(
            error_response(
                request.id->0,
                INVALID_PARAMS as int,
                "Resource not found: "@ + uri,
                None,
            ),
        ),
{
    lemma_method_table();
}

} // verus!
