//! The envelopes of the protocol and their wire form.
//!
//! A request is one JSON object on one line. A response is written on one
//! line as well, with its members in a fixed order: the protocol tag, the
//! id, then either the result or the error.

use crate::json::lemma_lookup;
use crate::json::lemma_object_view;
use crate::json::lookup;
use crate::json::parse_json;
use crate::json::parsed;
use crate::json::present_member;
use crate::json::render_json;
use crate::json::rendered;
use crate::json::string_member;
use crate::json::text;
use crate::json::Json;
use crate::json::JsonView;
use crate::text::decimal;
use crate::text::i64_to_decimal;
use crate::text::lemma_decimal_single_line;
use crate::text::single_line;
use crate::text::str_eq;
use vstd::prelude::*;
use vstd::string::StringExecFns;

verus! {

/// Error code of a request whose method the server does not know.
pub const METHOD_NOT_FOUND: i64 = -32601;

/// Error code of a request that a capability could not serve: a missing or
/// ill-typed parameter, an unknown capability, or a collaborator that failed.
pub const INVALID_PARAMS: i64 = -32602;

/// An incoming message. With an `id` it is a request and is owed exactly one
/// response; without one it is a notification and is never answered. An `id`
/// of JSON `null` is an id like any other.
#[derive(Debug, PartialEq)]
pub struct JsonRpcRequest {
    pub jsonrpc: String,
    pub method: String,
    pub params: Option<Json>,
    pub id: Option<Json>,
}

/// The mathematical value of a [`JsonRpcRequest`].
pub ghost struct RequestView {
    pub jsonrpc: Seq<char>,
    pub method: Seq<char>,
    pub params: Option<JsonView>,
    pub id: Option<JsonView>,
}

impl View for JsonRpcRequest {
    type V = RequestView;

    open spec fn view(&self) -> RequestView {
        RequestView {
            jsonrpc: self.jsonrpc@,
            method: self.method@,
            params: self.params.deep_view(),
            id: self.id.deep_view(),
        }
    }
}

/// Why a line is not a message. None of these can be answered: a line that
/// cannot be read names no request to answer.
#[derive(Debug, Clone, Copy, PartialEq, Eq, Structural)]
pub enum ParseFailure {
    /// The line is not one well-formed JSON document.
    Syntax,
    /// The document is not an object.
    NotAnObject,
    /// The object has no member `jsonrpc` that is a string.
    MissingProtocolTag,
    /// The object has no member `method` that is a string.
    MissingMethod,
}

/// The message that a document holds. The protocol tag and the method must
/// be strings; `params` counts as absent when it is `null`; `id` is taken as
/// it stands, `null` included.
pub open spec fn envelope_of(document: JsonView) -> Result<RequestView, ParseFailure> {
    if !(document is Object) {
        Err(ParseFailure::NotAnObject)
    } else if string_member(document, "jsonrpc"@) is None {
        Err(ParseFailure::MissingProtocolTag)
    } else if string_member(document, "method"@) is None {
        Err(ParseFailure::MissingMethod)
    } else {
        Ok(
            RequestView {
                jsonrpc: string_member(document, "jsonrpc"@)->0,
                method: string_member(document, "method"@)->0,
                params: present_member(document, "params"@),
                id: document.get("id"@),
            },
        )
    }
}

/// The message that a line holds, given what the JSON reader made of it.
pub open spec fn envelope(document: Option<JsonView>) -> Result<RequestView, ParseFailure> {
    match document {
        None => Err(ParseFailure::Syntax),
        Some(document) => envelope_of(document),
    }
}

/// The view of the outcome of reading a message.
pub open spec fn read_view(r: Result<JsonRpcRequest, ParseFailure>) -> Result<
    RequestView,
    ParseFailure,
> {
    match r {
        Ok(request) => Ok(request@),
        Err(failure) => Err(failure),
    }
}

/// What is known of one member while the members are taken off the end of
/// the list: either it has been found, and is the one that a lookup in the
/// whole list gives, or it can only be among the `rest` first members.
spec fn pinned(
    found: Option<JsonView>,
    all: Seq<(Seq<char>, JsonView)>,
    rest: int,
    key: Seq<char>,
) -> bool {
    match found {
        Some(value) => lookup(all, key) == Some(value),
        None => lookup(all, key) == lookup(all.take(rest), key),
    }
}

/// The four member names of a message are four different texts.
proof fn lemma_member_names_differ()
    ensures
        "jsonrpc"@ != "method"@,
        "jsonrpc"@ != "params"@,
        "jsonrpc"@ != "id"@,
        "method"@ != "params"@,
        "method"@ != "id"@,
        "params"@ != "id"@,
{
    reveal_strlit("jsonrpc");
    reveal_strlit("method");
    reveal_strlit("params");
    reveal_strlit("id");
    assert("id"@.len() == 2);
    assert("method"@[0] != "params"@[0]);
}

impl JsonRpcRequest {
    /// Reads a message out of a JSON document.
    pub fn from_json(document: Json) -> (r: Result<JsonRpcRequest, ParseFailure>)
        ensures
            read_view(r) == envelope_of(document@),
    {
        let mut members = match document {
            Json::Object(members) => members,
            _ => {
                return Err(ParseFailure::NotAnObject);
            },
        };
        let ghost all = members.deep_view();
        proof {
            lemma_object_view(members);
            lemma_member_names_differ();
            lemma_lookup(all, "jsonrpc"@);
            lemma_lookup(all, "method"@);
            lemma_lookup(all, "params"@);
            lemma_lookup(all, "id"@);
        }
        let mut jsonrpc: Option<Json> = None;
        let mut method: Option<Json> = None;
        let mut params: Option<Json> = None;
        let mut id: Option<Json> = None;
        assert(all.take(members@.len() as int) =~= all);
        while members.len() > 0
            invariant
                members@.len() <= all.len(),
                members.deep_view() == all.take(members@.len() as int),
                pinned(jsonrpc.deep_view(), all, members@.len() as int, "jsonrpc"@),
                pinned(method.deep_view(), all, members@.len() as int, "method"@),
                pinned(params.deep_view(), all, members@.len() as int, "params"@),
                pinned(id.deep_view(), all, members@.len() as int, "id"@),
                "jsonrpc"@ != "method"@,
                "jsonrpc"@ != "params"@,
                "jsonrpc"@ != "id"@,
                "method"@ != "params"@,
                "method"@ != "id"@,
                "params"@ != "id"@,
            decreases members@.len(),
        {
            let ghost n = members@.len() as int;
            let last = members.pop();
            proof {
                assert(all.take(n).drop_last() =~= all.take(n - 1));
            }
            match last {
                Some((key, value)) => {
                    if jsonrpc.is_none() && str_eq(key.as_str(), "jsonrpc") {
                        jsonrpc = Some(value);
                    } else if method.is_none() && str_eq(key.as_str(), "method") {
                        method = Some(value);
                    } else if params.is_none() && str_eq(key.as_str(), "params") {
                        params = Some(value);
                    } else if id.is_none() && str_eq(key.as_str(), "id") {
                        id = Some(value);
                    }
                },
                None => {},
            }
        }
        let jsonrpc = match jsonrpc {
            Some(Json::String(tag)) => tag,
            _ => {
                return Err(ParseFailure::MissingProtocolTag);
            },
        };
        let method = match method {
            Some(Json::String(name)) => name,
            _ => {
                return Err(ParseFailure::MissingMethod);
            },
        };
        let params = match params {
            Some(Json::Null) => None,
            other => other,
        };
        Ok(JsonRpcRequest { jsonrpc, method, params, id })
    }
}

/// Reads the message that a line holds.
pub fn parse(line: &str) -> (r: Result<JsonRpcRequest, ParseFailure>)
    ensures
        read_view(r) == envelope(parsed(line@)),
{
    match parse_json(line) {
        Some(document) => JsonRpcRequest::from_json(document),
        None => Err(ParseFailure::Syntax),
    }
}

/// The error of a response.
#[derive(Debug, PartialEq)]
pub struct JsonRpcError {
    pub code: i64,
    pub message: String,
    pub data: Option<Json>,
}

/// The mathematical value of a [`JsonRpcError`].
pub ghost struct ErrorView {
    pub code: int,
    pub message: Seq<char>,
    pub data: Option<JsonView>,
}

impl View for JsonRpcError {
    type V = ErrorView;

    open spec fn view(&self) -> ErrorView {
        ErrorView { code: self.code as int, message: self.message@, data: self.data.deep_view() }
    }
}

/// The answer to one request. It carries the id of the request and either a
/// result or an error, never both and never neither.
#[derive(Debug, PartialEq)]
pub struct JsonRpcResponse {
    pub id: Json,
    pub outcome: Result<Json, JsonRpcError>,
}

/// The mathematical value of a [`JsonRpcResponse`].
pub ghost struct ResponseView {
    pub id: JsonView,
    pub outcome: Result<JsonView, ErrorView>,
}

impl View for JsonRpcResponse {
    type V = ResponseView;

    open spec fn view(&self) -> ResponseView {
        ResponseView {
            id: self.id@,
            outcome: match self.outcome {
                Ok(result) => Ok(result@),
                Err(error) => Err(error@),
            },
        }
    }
}

impl DeepView for JsonRpcResponse {
    type V = ResponseView;

    open spec fn deep_view(&self) -> ResponseView {
        self@
    }
}

/// The response that hands a result to the request `id`.
pub open spec fn success_response(id: JsonView, result: JsonView) -> ResponseView {
    ResponseView { id, outcome: Ok(result) }
}

/// The response that reports an error to the request `id`.
pub open spec fn error_response(
    id: JsonView,
    code: int,
    message: Seq<char>,
    data: Option<JsonView>,
) -> ResponseView {
    ResponseView { id, outcome: Err(ErrorView { code, message, data }) }
}

impl JsonRpcResponse {
    /// The response that hands a result to the request `id`.
    pub fn success(id: Json, result: Json) -> (r: JsonRpcResponse)
        ensures
            r@ == success_response(id@, result@),
    {
        JsonRpcResponse { id, outcome: Ok(result) }
    }

    /// The response that reports an error to the request `id`.
    pub fn error(id: Json, code: i64, message: String, data: Option<Json>) -> (r: JsonRpcResponse)
        ensures
            r@ == error_response(id@, code as int, message@, data.deep_view()),
    {
        JsonRpcResponse { id, outcome: Err(JsonRpcError { code, message, data }) }
    }
}

/// The wire form of an error: `code`, `message`, then `data` where there is
/// any.
pub open spec fn error_text(error: ErrorView) -> Seq<char> {
    "{\"code\":"@ + decimal(error.code) + ",\"message\":"@ + rendered(text(error.message)) + (
    match error.data {
        Some(data) => ",\"data\":"@ + rendered(data),
        None => Seq::empty(),
    }) + "}"@
}

/// The wire form of a response: the protocol tag, the id as the request gave
/// it, then `result` or `error`.
pub open spec fn response_text(response: ResponseView) -> Seq<char> {
    "{\"jsonrpc\":\"2.0\",\"id\":"@ + rendered(response.id) + (match response.outcome {
        Ok(result) => ",\"result\":"@ + rendered(result),
        Err(error) => ",\"error\":"@ + error_text(error),
    }) + "}"@
}

/// Writes the error of a response as JSON text.
fn serialize_error(error: &JsonRpcError) -> (s: String)
    ensures
        s@ == error_text(error@),
        single_line(s@),
{
    proof {
        reveal_strlit("{\"code\":");
        reveal_strlit(",\"message\":");
        reveal_strlit(",\"data\":");
        reveal_strlit("}");
        lemma_decimal_single_line(error.code as int);
    }
    let mut s = String::from_str("{\"code\":");
    let code = i64_to_decimal(error.code);
    s.append(code.as_str());
    s.append(",\"message\":");
    let message = render_json(&Json::String(error.message.clone()));
    s.append(message.as_str());
    match &error.data {
        Some(data) => {
            s.append(",\"data\":");
            let data_text = render_json(data);
            s.append(data_text.as_str());
        },
        None => {},
    }
    s.append("}");
    s
}

/// Writes a response as one line of JSON text, without the line feed that
/// ends it.
pub fn serialize(response: &JsonRpcResponse) -> (line: String)
    ensures
        line@ == response_text(response@),
        single_line(line@),
{
    proof {
        reveal_strlit("{\"jsonrpc\":\"2.0\",\"id\":");
        reveal_strlit(",\"result\":");
        reveal_strlit(",\"error\":");
        reveal_strlit("}");
    }
    let mut line = String::from_str("{\"jsonrpc\":\"2.0\",\"id\":");
    let id = render_json(&response.id);
    line.append(id.as_str());
    match &response.outcome {
        Ok(result) => {
            line.append(",\"result\":");
            let result_text = render_json(result);
            line.append(result_text.as_str());
        },
        Err(error) => {
            line.append(",\"error\":");
            let error_text = serialize_error(error);
            line.append(error_text.as_str());
        },
    }
    line.append("}");
    line
}

} // verus!
