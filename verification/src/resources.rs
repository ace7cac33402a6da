//! The resources: what can be read, and what a reading looks like.
//!
//! Two resources are registered: the notes of the store under `db://memos`
//! and the project's settings file under `env://vars`.
//! [`handle_read_resource`] checks the parameters of a reading and says
//! which [`Call`] is to be made; the functions below it turn what came back
//! into the contents that the client sees.

use crate::capability::plan_view;
use crate::capability::Call;
use crate::capability::CallView;
use crate::db::encode_memos;
use crate::db::memos_text;
use crate::db::Memo;
use crate::db::MemoView;
use crate::json::empty_array;
use crate::json::empty_object;
use crate::json::string_member;
use crate::json::text;
use crate::json::Json;
use crate::json::JsonView;
use crate::text::str_eq;
use vstd::prelude::*;
use vstd::string::StringExecFns;

verus! {

/// The descriptor of a resource.
pub open spec fn resource(
    uri: Seq<char>,
    name: Seq<char>,
    description: Seq<char>,
    mime_type: Seq<char>,
) -> JsonView {
    empty_object().with("uri"@, text(uri)).with("name"@, text(name)).with(
        "description"@,
        text(description),
    ).with("mimeType"@, text(mime_type))
}

/// The list of the registered resources.
pub open spec fn resources_listing() -> JsonView {
    empty_object().with(
        "resources"@,
        empty_array().and(
            resource(
                "db://memos"@,
                "Development Memos"@,
                "List of all development memos stored in the database"@,
                "application/json"@,
            ),
        ).and(
            resource(
                "env://vars"@,
                "Environment Variables"@,
                "Environment variables from .env file"@,
                "application/json"@,
            ),
        ),
    )
}

/// Builds the descriptor of a resource.
fn make_resource(uri: &str, name: &str, description: &str, mime_type: &str) -> (r: Json)
    ensures
        r@ == resource(uri@, name@, description@, mime_type@),
{
    Json::object().with("uri", Json::text(uri)).with("name", Json::text(name)).with(
        "description",
        Json::text(description),
    ).with("mimeType", Json::text(mime_type))
}

/// Lists the registered resources. The list is the same at every call.
pub fn handle_list_resources() -> (r: Json)
    ensures
        r@ == resources_listing(),
{
    let resources = Json::array().and(
        make_resource(
            "db://memos",
            "Development Memos",
            "List of all development memos stored in the database",
            "application/json",
        ),
    ).and(
        make_resource(
            "env://vars",
            "Environment Variables",
            "Environment variables from .env file",
            "application/json",
        ),
    );
    Json::object().with("resources", resources)
}

/// What reading a resource with `params` comes to: the call to make, or why
/// there is none.
pub open spec fn plan_read(params: Option<JsonView>) -> Result<CallView, Seq<char>> {
    match params {
        None => Err("Missing params"@),
        Some(params) => match string_member(params, "uri"@) {
            None => Err("Missing uri parameter"@),
            Some(uri) => if uri == "db://memos"@ {
                Ok(CallView::ReadMemos)
            } else if uri == "env://vars"@ {
                Ok(CallView::ReadSettings)
            } else {
                Err("Resource not found: "@ + uri)
            },
        },
    }
}

/// Checks the parameters of a reading, and says which call is to be made.
pub fn handle_read_resource(params: Option<&Json>) -> (r: Result<Call, String>)
    ensures
        plan_view(r) == plan_read(params.deep_view()),
{
    let params = match params {
        Some(params) => params,
        None => {
            return Err(String::from_str("Missing params"));
        },
    };
    let uri = match params.get_str("uri") {
        Some(uri) => uri,
        None => {
            return Err(String::from_str("Missing uri parameter"));
        },
    };
    if str_eq(uri, "db://memos") {
        Ok(Call::ReadMemos)
    } else if str_eq(uri, "env://vars") {
        Ok(Call::ReadSettings)
    } else {
        Err(String::from_str("Resource not found: ").concat(uri))
    }
}

/// The contents of a reading: one item with the uri of the resource, the
/// type of its text, and the text.
pub open spec fn contents(uri: Seq<char>, mime_type: Seq<char>, body: Seq<char>) -> JsonView {
    empty_object().with(
        "contents"@,
        empty_array().and(
            empty_object().with("uri"@, text(uri)).with("mimeType"@, text(mime_type)).with(
                "text"@,
                text(body),
            ),
        ),
    )
}

/// Builds the contents of a reading.
fn make_contents(uri: &str, mime_type: &str, body: &str) -> (r: Json)
    ensures
        r@ == contents(uri@, mime_type@, body@),
{
    let item = Json::object().with("uri", Json::text(uri)).with(
        "mimeType",
        Json::text(mime_type),
    ).with("text", Json::text(body));
    Json::object().with("contents", Json::array().and(item))
}

/// What a reading of `db://memos` shows for the notes of the store.
pub open spec fn memos_contents(memos: Seq<MemoView>) -> JsonView {
    contents("db://memos"@, "application/json"@, memos_text(memos))
}

/// The contents of `db://memos` for the notes that the store listed.
pub fn memos_read(memos: &Vec<Memo>) -> (r: Json)
    ensures
        r@ == memos_contents(memos.deep_view()),
{
    let body = encode_memos(memos);
    make_contents("db://memos", "application/json", body.as_str())
}

/// What a reading of `env://vars` shows: the text of the settings file, and
/// an empty text where the file could not be read.
pub open spec fn settings_contents(settings: Option<Seq<char>>) -> JsonView {
    contents(
        "env://vars"@,
        "text/plain"@,
        match settings {
            Some(body) => body,
            None => Seq::empty(),
        },
    )
}

/// The contents of `env://vars` for what was read of the settings file.
pub fn settings_read(settings: Option<&str>) -> (r: Json)
    ensures
        r@ == settings_contents(settings.deep_view()),
{
    match settings {
        Some(body) => make_contents("env://vars", "text/plain", body),
        None => {
            let empty = String::new();
            make_contents("env://vars", "text/plain", empty.as_str())
        },
    }
}

} // verus!
