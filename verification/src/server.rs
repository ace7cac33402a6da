//! The dispatcher and the steps of the transport loop.
//!
//! The loop has two states. While it reads, the engine holds nothing: what
//! is done with a line depends on the line alone. [`handle_line`] takes the
//! line and says what is to be done with it: nothing, write a response, or
//! make a [`Call`] first. While a call is being made, the engine holds the
//! [`Invocation`]; [`finish_line`] takes the [`Answer`] and gives the
//! response to write, if one is owed. Either way the loop is back to
//! reading. Whoever runs the engine reads the lines, makes the calls,
//! writes and flushes what it is given before it reads on, and stops when
//! the input ends.

use crate::capability::content_view;
use crate::capability::plan_view;
use crate::capability::Answer;
use crate::capability::AnswerView;
use crate::capability::Call;
use crate::capability::CallView;
use crate::json::empty_object;
use crate::json::parsed;
use crate::json::string_member;
use crate::json::text;
use crate::json::Json;
use crate::json::JsonView;
use crate::mcp::envelope;
use crate::mcp::error_response;
use crate::mcp::parse;
use crate::mcp::response_text;
use crate::mcp::serialize;
use crate::mcp::success_response;
use crate::mcp::JsonRpcRequest;
use crate::mcp::JsonRpcResponse;
use crate::mcp::ParseFailure;
use crate::mcp::RequestView;
use crate::mcp::ResponseView;
use crate::mcp::INVALID_PARAMS;
use crate::mcp::METHOD_NOT_FOUND;
use crate::prompts::handle_get_prompt;
use crate::prompts::handle_list_prompts;
use crate::prompts::health_prompt;
use crate::prompts::health_prompt_of;
use crate::prompts::plan_prompt;
use crate::prompts::prompts_listing;
use crate::resources::handle_list_resources;
use crate::resources::handle_read_resource;
use crate::resources::memos_contents;
use crate::resources::memos_read;
use crate::resources::plan_read;
use crate::resources::resources_listing;
use crate::resources::settings_contents;
use crate::resources::settings_read;
use crate::text::is_blank;
use crate::text::is_blank_line;
use crate::text::single_line;
use crate::text::str_eq;
use crate::tools::files_found;
use crate::tools::files_text;
use crate::tools::handle_call_tool;
use crate::tools::handle_list_tools;
use crate::tools::memo_added;
use crate::tools::memo_added_text;
use crate::tools::plan_tool;
use crate::tools::stats_text;
use crate::tools::system_stats;
use crate::tools::text_content;
use crate::tools::tools_listing;
use vstd::prelude::*;
use vstd::string::StringExecFns;

verus! {

/// A call that the engine waits for, with the id of the request that it
/// serves. A notification has no id, and its call is made all the same.
#[derive(Debug, PartialEq)]
pub struct Invocation {
    pub id: Option<Json>,
    pub call: Call,
}

/// The mathematical value of an [`Invocation`].
pub ghost struct InvocationView {
    pub id: Option<JsonView>,
    pub call: CallView,
}

impl View for Invocation {
    type V = InvocationView;

    open spec fn view(&self) -> InvocationView {
        InvocationView { id: self.id.deep_view(), call: self.call@ }
    }
}

/// What the dispatcher makes of a message.
#[derive(Debug, PartialEq)]
pub enum Dispatch {
    /// No response is owed and nothing is left to do.
    Silent,
    /// The response is ready.
    Reply(JsonRpcResponse),
    /// A collaborator must be asked first.
    Invoke(Invocation),
}

/// The mathematical value of a [`Dispatch`].
pub ghost enum DispatchView {
    Silent,
    Reply(ResponseView),
    Invoke(InvocationView),
}

impl View for Dispatch {
    type V = DispatchView;

    open spec fn view(&self) -> DispatchView {
        match self {
            Dispatch::Silent => DispatchView::Silent,
            Dispatch::Reply(response) => DispatchView::Reply(response@),
            Dispatch::Invoke(invocation) => DispatchView::Invoke(invocation@),
        }
    }
}

/// The handlers of the dispatch table.
#[derive(Debug, Clone, Copy, PartialEq, Eq, Structural)]
pub enum Method {
    Initialize,
    Ping,
    ResourcesList,
    ResourcesRead,
    ToolsList,
    ToolsCall,
    PromptsList,
    PromptsGet,
    /// The client's acknowledgement of the handshake.
    Initialized,
    /// Any name that the table does not hold.
    Unknown,
}

/// The dispatch table: the handler that a method name stands for.
pub open spec fn method_named(name: Seq<char>) -> Method {
    if name == "initialize"@ {
        Method::Initialize
    } else if name == "ping"@ {
        Method::Ping
    } else if name == "resources/list"@ {
        Method::ResourcesList
    } else if name == "resources/read"@ {
        Method::ResourcesRead
    } else if name == "tools/list"@ {
        Method::ToolsList
    } else if name == "tools/call"@ {
        Method::ToolsCall
    } else if name == "prompts/list"@ {
        Method::PromptsList
    } else if name == "prompts/get"@ {
        Method::PromptsGet
    } else if name == "notifications/initialized"@ {
        Method::Initialized
    } else {
        Method::Unknown
    }
}

impl Method {
    /// Looks a method name up in the dispatch table.
    pub fn named(name: &str) -> (method: Method)
        ensures
            method == method_named(name@),
    {
        if str_eq(name, "initialize") {
            Method::Initialize
        } else if str_eq(name, "ping") {
            Method::Ping
        } else if str_eq(name, "resources/list") {
            Method::ResourcesList
        } else if str_eq(name, "resources/read") {
            Method::ResourcesRead
        } else if str_eq(name, "tools/list") {
            Method::ToolsList
        } else if str_eq(name, "tools/call") {
            Method::ToolsCall
        } else if str_eq(name, "prompts/list") {
            Method::PromptsList
        } else if str_eq(name, "prompts/get") {
            Method::PromptsGet
        } else if str_eq(name, "notifications/initialized") {
            Method::Initialized
        } else {
            Method::Unknown
        }
    }
}

/// What `initialize` returns: the protocol version, the three kinds of
/// capability, each without options, and the name and version of the
/// server.
pub open spec fn initialize_result() -> JsonView {
    empty_object().with("protocolVersion"@, text("2024-11-05"@)).with(
        "capabilities"@,
        empty_object().with("resources"@, empty_object()).with("tools"@, empty_object()).with(
            "prompts"@,
            empty_object(),
        ),
    ).with(
        "serverInfo"@,
        empty_object().with("name"@, text("local-dev-insights"@)).with("version"@, text("0.1.0"@)),
    )
}

/// The result of `initialize`.
pub fn handle_initialize() -> (r: Json)
    ensures
        r@ == initialize_result(),
{
    let capabilities = Json::object().with("resources", Json::object()).with(
        "tools",
        Json::object(),
    ).with("prompts", Json::object());
    let server_info = Json::object().with("name", Json::text("local-dev-insights")).with(
        "version",
        Json::text("0.1.0"),
    );
    Json::object().with("protocolVersion", Json::text("2024-11-05")).with(
        "capabilities",
        capabilities,
    ).with("serverInfo", server_info)
}

/// The response to the request `id` for what a capability made of it: its
/// content as the result, or its failure as an error of the class "invalid
/// params", with the text of the failure as the message and no data.
pub open spec fn response_for(id: JsonView, outcome: Result<JsonView, Seq<char>>) -> ResponseView {
    match outcome {
        Ok(content) => success_response(id, content),
        Err(reason) => error_response(id, INVALID_PARAMS as int, reason, None),
    }
}

/// The response that is owed for an outcome: none to a notification, and to
/// a request the one that [`response_for`] gives.
pub open spec fn reply_to(id: Option<JsonView>, outcome: Result<JsonView, Seq<char>>) -> Option<
    ResponseView,
> {
    match id {
        Some(id) => Some(response_for(id, outcome)),
        None => None,
    }
}

/// What the dispatcher makes of an outcome that is known at once.
pub open spec fn settled(id: Option<JsonView>, outcome: Result<JsonView, Seq<char>>) -> DispatchView {
    match reply_to(id, outcome) {
        Some(response) => DispatchView::Reply(response),
        None => DispatchView::Silent,
    }
}

/// What the dispatcher makes of a capability's plan: the call, or the
/// failure settled at once.
pub open spec fn planned(id: Option<JsonView>, plan: Result<CallView, Seq<char>>) -> DispatchView {
    match plan {
        Ok(call) => DispatchView::Invoke(InvocationView { id, call }),
        Err(reason) => settled(id, Err(reason)),
    }
}

/// The member of the parameters under `key`; nothing where there are no
/// parameters.
pub open spec fn param(params: Option<JsonView>, key: Seq<char>) -> Option<JsonView> {
    match params {
        Some(params) => params.get(key),
        None => None,
    }
}

/// The name of the capability that the parameters ask for: the string under
/// `name`, and the empty name where there is none.
pub open spec fn capability_name(params: Option<JsonView>) -> Seq<char> {
    match params {
        Some(params) => match string_member(params, "name"@) {
            Some(name) => name,
            None => Seq::empty(),
        },
        None => Seq::empty(),
    }
}

/// What the dispatcher makes of a message: each handler of the table with
/// its behaviour. A message without an id is never answered; the
/// acknowledgement of the handshake is never answered either, with or
/// without an id.
pub open spec fn dispatch(request: RequestView) -> DispatchView {
    let id = request.id;
    let params = request.params;
    match method_named(request.method) {
        Method::Initialize => settled(id, Ok(initialize_result())),
        Method::Ping => settled(id, Ok(empty_object())),
        Method::ResourcesList => settled(id, Ok(resources_listing())),
        Method::ResourcesRead => planned(id, plan_read(params)),
        Method::ToolsList => settled(id, Ok(tools_listing())),
        Method::ToolsCall => planned(
            id,
            plan_tool(capability_name(params), param(params, "arguments"@)),
        ),
        Method::PromptsList => settled(id, Ok(prompts_listing())),
        Method::PromptsGet => planned(id, plan_prompt(capability_name(params))),
        Method::Initialized => DispatchView::Silent,
        Method::Unknown => match id {
            Some(id) => DispatchView::Reply(
                error_response(
                    id,
                    METHOD_NOT_FOUND as int,
                    "Method not found: "@ + request.method,
                    None,
                ),
            ),
            None => DispatchView::Silent,
        },
    }
}

/// Frames what a capability made of a request as the response to it.
fn respond(id: Json, outcome: Result<Json, String>) -> (r: JsonRpcResponse)
    ensures
        r@ == response_for(id@, content_view(outcome)),
{
    match outcome {
        Ok(content) => JsonRpcResponse::success(id, content),
        Err(reason) => JsonRpcResponse::error(id, INVALID_PARAMS, reason, None),
    }
}

/// Settles an outcome that is known at once.
fn settle(id: Option<Json>, outcome: Result<Json, String>) -> (d: Dispatch)
    ensures
        d@ == settled(id.deep_view(), content_view(outcome)),
{
    match id {
        Some(id) => Dispatch::Reply(respond(id, outcome)),
        None => Dispatch::Silent,
    }
}

/// Hands out the call that a capability plans, or settles its failure.
fn plan(id: Option<Json>, planned_call: Result<Call, String>) -> (d: Dispatch)
    ensures
        d@ == planned(id.deep_view(), plan_view(planned_call)),
{
    match planned_call {
        Ok(call) => Dispatch::Invoke(Invocation { id, call }),
        Err(reason) => settle(id, Err(reason)),
    }
}

/// The name of the capability that the parameters ask for.
fn name_in(params: &Option<Json>) -> (name: &str)
    ensures
        name@ == capability_name(params.deep_view()),
{
    let found = match params {
        Some(params) => params.get_str("name"),
        None => None,
    };
    match found {
        Some(name) => name,
        None => {
            proof {
                reveal_strlit("");
            }
            ""
        },
    }
}

/// The arguments that the parameters hand to the capability.
fn arguments_in(params: &Option<Json>) -> (arguments: Option<&Json>)
    ensures
        arguments.deep_view() == param(params.deep_view(), "arguments"@),
{
    match params {
        Some(params) => params.get("arguments"),
        None => None,
    }
}

/// Routes a message to its handler.
pub fn handle_request(request: JsonRpcRequest) -> (d: Dispatch)
    ensures
        d@ == dispatch(request@),
{
    let JsonRpcRequest { jsonrpc: _, method, params, id } = request;
    match Method::named(method.as_str()) {
        Method::Initialize => settle(id, Ok(handle_initialize())),
        Method::Ping => settle(id, Ok(Json::object())),
        Method::ResourcesList => settle(id, Ok(handle_list_resources())),
        Method::ResourcesRead => {
            let read = handle_read_resource(params.as_ref());
            plan(id, read)
        },
        Method::ToolsList => settle(id, Ok(handle_list_tools())),
        Method::ToolsCall => {
            let call = handle_call_tool(name_in(&params), arguments_in(&params));
            plan(id, call)
        },
        Method::PromptsList => settle(id, Ok(handle_list_prompts())),
        Method::PromptsGet => {
            let get = handle_get_prompt(name_in(&params), arguments_in(&params));
            plan(id, get)
        },
        Method::Initialized => Dispatch::Silent,
        Method::Unknown => match id {
            Some(id) => Dispatch::Reply(
                JsonRpcResponse::error(
                    id,
                    METHOD_NOT_FOUND,
                    String::from_str("Method not found: ").concat(method.as_str()),
                    None,
                ),
            ),
            None => Dispatch::Silent,
        },
    }
}

/// What a capability makes of the answer to its call: the content to
/// return, or the text of the failure. A collaborator that failed fails the
/// call with its own words. An answer of a kind that the call does not ask
/// for fails it too.
pub open spec fn outcome_of(call: CallView, answer: AnswerView) -> Result<JsonView, Seq<char>> {
    match (call, answer) {
        (_, AnswerView::Failed(reason)) => Err(reason),
        (CallView::AddMemo { .. }, AnswerView::MemoAdded(id)) => Ok(
            text_content(memo_added_text(id)),
        ),
        (CallView::SystemStats, AnswerView::Stats(stats)) => Ok(text_content(stats_text(stats))),
        (CallView::ListFiles { extension }, AnswerView::Files(entries)) => Ok(
            text_content(files_text(entries, extension)),
        ),
        (CallView::ReadMemos, AnswerView::Memos(memos)) => Ok(memos_contents(memos)),
        (CallView::ReadSettings, AnswerView::Settings(settings)) => Ok(
            settings_contents(settings),
        ),
        (CallView::AnalyzeHealth, AnswerView::Stats(stats)) => Ok(health_prompt_of(stats)),
        _ => Err("Unexpected answer from the collaborator"@),
    }
}

/// Turns the answer to a call into what the capability returns.
pub fn complete(call: &Call, answer: Answer) -> (r: Result<Json, String>)
    ensures
        content_view(r) == outcome_of(call@, answer@),
{
    match answer {
        Answer::Failed(reason) => Err(reason),
        Answer::MemoAdded(id) => match call {
            Call::AddMemo { .. } => Ok(memo_added(id)),
            _ => Err(String::from_str("Unexpected answer from the collaborator")),
        },
        Answer::Stats(stats) => match call {
            Call::SystemStats => Ok(system_stats(&stats)),
            Call::AnalyzeHealth => Ok(health_prompt(&stats)),
            _ => Err(String::from_str("Unexpected answer from the collaborator")),
        },
        Answer::Files(entries) => match call {
            Call::ListFiles { extension } => Ok(files_found(&entries, extension.as_str())),
            _ => Err(String::from_str("Unexpected answer from the collaborator")),
        },
        Answer::Memos(memos) => match call {
            Call::ReadMemos => Ok(memos_read(&memos)),
            _ => Err(String::from_str("Unexpected answer from the collaborator")),
        },
        Answer::Settings(settings) => match call {
            Call::ReadSettings => match &settings {
                Some(body) => Ok(settings_read(Some(body.as_str()))),
                None => Ok(settings_read(None)),
            },
            _ => Err(String::from_str("Unexpected answer from the collaborator")),
        },
    }
}

/// The response that is owed once a call has been answered.
pub open spec fn completion(invocation: InvocationView, answer: AnswerView) -> Option<
    ResponseView,
> {
    reply_to(invocation.id, outcome_of(invocation.call, answer))
}

/// Gives the response that is owed once a call has been answered: none for
/// a notification, and for a request the content or the failure.
pub fn finish(invocation: Invocation, answer: Answer) -> (r: Option<JsonRpcResponse>)
    ensures
        r.deep_view() == completion(invocation@, answer@),
{
    let Invocation { id, call } = invocation;
    match id {
        Some(id) => Some(respond(id, complete(&call, answer))),
        None => None,
    }
}

/// What is to be done with a line. None of the steps ends the session: the
/// loop goes back to reading after each of them.
#[derive(Debug, PartialEq)]
pub enum LineStep {
    /// The line is blank. Nothing is written.
    Blank,
    /// The line is no message. Nothing is written: there is no one to
    /// answer.
    Malformed(ParseFailure),
    /// The message is owed no response. Nothing is written.
    Silent,
    /// The response to write, without the line feed that ends it.
    Write(String),
    /// A collaborator must be asked first; then [`finish_line`] takes over.
    Invoke(Invocation),
}

/// The mathematical value of a [`LineStep`].
pub ghost enum LineStepView {
    Blank,
    Malformed(ParseFailure),
    Silent,
    Write(Seq<char>),
    Invoke(InvocationView),
}

impl View for LineStep {
    type V = LineStepView;

    open spec fn view(&self) -> LineStepView {
        match self {
            LineStep::Blank => LineStepView::Blank,
            LineStep::Malformed(failure) => LineStepView::Malformed(*failure),
            LineStep::Silent => LineStepView::Silent,
            LineStep::Write(line) => LineStepView::Write(line@),
            LineStep::Invoke(invocation) => LineStepView::Invoke(invocation@),
        }
    }
}

/// What is to be done with a message that was read from a line.
pub open spec fn message_step(request: RequestView) -> LineStepView {
    match dispatch(request) {
        DispatchView::Silent => LineStepView::Silent,
        DispatchView::Reply(response) => LineStepView::Write(response_text(response)),
        DispatchView::Invoke(invocation) => LineStepView::Invoke(invocation),
    }
}

/// What is to be done with what the reader made of a line that is not
/// blank.
pub open spec fn document_step(document: Option<JsonView>) -> LineStepView {
    match envelope(document) {
        Ok(request) => message_step(request),
        Err(failure) => LineStepView::Malformed(failure),
    }
}

/// What is to be done with a line.
pub open spec fn line_step(line: Seq<char>) -> LineStepView {
    if is_blank(line) {
        LineStepView::Blank
    } else {
        document_step(parsed(line))
    }
}

/// Decides what is to be done with a message that was read from a line.
pub fn handle_message(request: JsonRpcRequest) -> (step: LineStep)
    ensures
        step@ == message_step(request@),
        step matches LineStep::Write(line) ==> single_line(line@),
{
    match handle_request(request) {
        Dispatch::Silent => LineStep::Silent,
        Dispatch::Reply(response) => LineStep::Write(serialize(&response)),
        Dispatch::Invoke(invocation) => LineStep::Invoke(invocation),
    }
}

/// Decides what is to be done with a line.
pub fn handle_line(line: &str) -> (step: LineStep)
    ensures
        step@ == line_step(line@),
        step matches LineStep::Write(line) ==> single_line(line@),
{
    if is_blank_line(line) {
        return LineStep::Blank;
    }
    match parse(line) {
        Ok(request) => handle_message(request),
        Err(failure) => LineStep::Malformed(failure),
    }
}

/// The line that is owed once a call has been answered.
pub open spec fn line_completion(invocation: InvocationView, answer: AnswerView) -> Option<
    Seq<char>,
> {
    match completion(invocation, answer) {
        Some(response) => Some(response_text(response)),
        None => None,
    }
}

/// Gives the line to write once a call has been answered, without the line
/// feed that ends it; none for a notification.
pub fn finish_line(invocation: Invocation, answer: Answer) -> (r: Option<String>)
    ensures
        r.deep_view() == line_completion(invocation@, answer@),
        r matches Some(line) ==> single_line(line@),
{
    match finish(invocation, answer) {
        Some(response) => Some(serialize(&response)),
        None => None,
    }
}

/// The message that a line holds: none where the line is blank or cannot be
/// read as a message.
pub open spec fn message_of(line: Seq<char>) -> Option<RequestView> {
    if is_blank(line) {
        None
    } else {
        match envelope(parsed(line)) {
            Ok(request) => Some(request),
            Err(_) => None,
        }
    }
}

/// The response that a message gets in the end, whatever the answer to its
/// call, if it makes one.
pub open spec fn response_to(request: RequestView, answer: AnswerView) -> Option<ResponseView> {
    match dispatch(request) {
        DispatchView::Silent => None,
        DispatchView::Reply(response) => Some(response),
        DispatchView::Invoke(invocation) => completion(invocation, answer),
    }
}

/// The line that is written for a line that was read, whatever the answer
/// to its call, if it makes one.
pub open spec fn line_reply(line: Seq<char>, answer: AnswerView) -> Option<Seq<char>> {
    match line_step(line) {
        LineStepView::Write(reply) => Some(reply),
        LineStepView::Invoke(invocation) => line_completion(invocation, answer),
        _ => None,
    }
}

} // verus!
