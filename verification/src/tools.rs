//! The tools: what they are, what they ask for, and what they report.
//!
//! Three tools are registered: `add_memo`, `get_system_stats` and
//! `list_files_by_extension`. Invoking one is done in two steps.
//! [`handle_call_tool`] checks the name and the arguments and says which
//! [`Call`] is to be made; the functions below it turn what came back into
//! the content that the client sees.

use crate::capability::plan_view;
use crate::capability::Call;
use crate::capability::CallView;
use crate::capability::FileEntry;
use crate::capability::FileEntryView;
use crate::capability::StatsView;
use crate::capability::SystemStats;
use crate::json::empty_array;
use crate::json::empty_object;
use crate::json::string_member;
use crate::json::text;
use crate::json::Json;
use crate::json::JsonView;
use crate::text::decimal;
use crate::text::digits;
use crate::text::i64_to_decimal;
use crate::text::join;
use crate::text::join_strings;
use crate::text::str_eq;
use crate::text::u64_to_decimal;
use vstd::prelude::*;
use vstd::string::StringExecFns;

verus! {

/// A property of an input schema: its JSON type and what it is for.
pub open spec fn property(kind: Seq<char>, description: Seq<char>) -> JsonView {
    empty_object().with("type"@, text(kind)).with("description"@, text(description))
}

/// The descriptor of a tool: its name, what it does, and the schema of its
/// arguments.
pub open spec fn tool(name: Seq<char>, description: Seq<char>, schema: JsonView) -> JsonView {
    empty_object().with("name"@, text(name)).with("description"@, text(description)).with(
        "inputSchema"@,
        schema,
    )
}

/// The schema of the arguments of `add_memo`.
pub open spec fn add_memo_schema() -> JsonView {
    empty_object().with("type"@, text("object"@)).with(
        "properties"@,
        empty_object().with("content"@, property("string"@, "Content of the memo"@)).with(
            "tags"@,
            empty_object().with("type"@, text("array"@)).with(
                "items"@,
                empty_object().with("type"@, text("string"@)),
            ).with("description"@, text("Tags for the memo"@)),
        ),
    ).with("required"@, empty_array().and(text("content"@)))
}

/// The schema of the arguments of `get_system_stats`: none.
pub open spec fn get_system_stats_schema() -> JsonView {
    empty_object().with("type"@, text("object"@)).with("properties"@, empty_object())
}

/// The schema of the arguments of `list_files_by_extension`.
pub open spec fn list_files_schema() -> JsonView {
    empty_object().with("type"@, text("object"@)).with(
        "properties"@,
        empty_object().with(
            "extension"@,
            property("string"@, "File extension (e.g., 'rs', 'md')"@),
        ),
    ).with("required"@, empty_array().and(text("extension"@)))
}

/// The list of the registered tools.
pub open spec fn tools_listing() -> JsonView {
    empty_object().with(
        "tools"@,
        empty_array().and(
            tool("add_memo"@, "Add a new development memo to the database"@, add_memo_schema()),
        ).and(
            tool(
                "get_system_stats"@,
                "Get current system statistics (CPU, Memory)"@,
                get_system_stats_schema(),
            ),
        ).and(
            tool(
                "list_files_by_extension"@,
                "Recursively list files with a specific extension in the current directory"@,
                list_files_schema(),
            ),
        ),
    )
}

/// Builds a property of an input schema.
fn make_property(kind: &str, description: &str) -> (r: Json)
    ensures
        r@ == property(kind@, description@),
{
    Json::object().with("type", Json::text(kind)).with("description", Json::text(description))
}

/// Builds the descriptor of a tool.
fn make_tool(name: &str, description: &str, schema: Json) -> (r: Json)
    ensures
        r@ == tool(name@, description@, schema@),
{
    Json::object().with("name", Json::text(name)).with("description", Json::text(description)).with(
        "inputSchema",
        schema,
    )
}

/// Builds the schema of the arguments of `add_memo`.
fn make_add_memo_schema() -> (r: Json)
    ensures
        r@ == add_memo_schema(),
{
    let tags = Json::object().with("type", Json::text("array")).with(
        "items",
        Json::object().with("type", Json::text("string")),
    ).with("description", Json::text("Tags for the memo"));
    let properties = Json::object().with(
        "content",
        make_property("string", "Content of the memo"),
    ).with("tags", tags);
    Json::object().with("type", Json::text("object")).with("properties", properties).with(
        "required",
        Json::array().and(Json::text("content")),
    )
}

/// Builds the schema of the arguments of `get_system_stats`.
fn make_get_system_stats_schema() -> (r: Json)
    ensures
        r@ == get_system_stats_schema(),
{
    Json::object().with("type", Json::text("object")).with("properties", Json::object())
}

/// Builds the schema of the arguments of `list_files_by_extension`.
fn make_list_files_schema() -> (r: Json)
    ensures
        r@ == list_files_schema(),
{
    let properties = Json::object().with(
        "extension",
        make_property("string", "File extension (e.g., 'rs', 'md')"),
    );
    Json::object().with("type", Json::text("object")).with("properties", properties).with(
        "required",
        Json::array().and(Json::text("extension")),
    )
}

/// Lists the registered tools. The list is the same at every call.
pub fn handle_list_tools() -> (r: Json)
    ensures
        r@ == tools_listing(),
{
    let tools = Json::array().and(
        make_tool(
            "add_memo",
            "Add a new development memo to the database",
            make_add_memo_schema(),
        ),
    ).and(
        make_tool(
            "get_system_stats",
            "Get current system statistics (CPU, Memory)",
            make_get_system_stats_schema(),
        ),
    ).and(
        make_tool(
            "list_files_by_extension",
            "Recursively list files with a specific extension in the current directory",
            make_list_files_schema(),
        ),
    );
    Json::object().with("tools", tools)
}

/// The strings among the items of an array, in order. Items that are not
/// strings are passed over.
pub open spec fn strings_among(items: Seq<JsonView>) -> Seq<Seq<char>>
    decreases items.len(),
{
    if items.len() == 0 {
        Seq::empty()
    } else {
        match items.last() {
            JsonView::String(s) => strings_among(items.drop_last()).push(s),
            _ => strings_among(items.drop_last()),
        }
    }
}

/// The tags that the arguments of `add_memo` name: the strings of the array
/// under `tags`, and none where there is no such array.
pub open spec fn tags_of(arguments: JsonView) -> Seq<Seq<char>> {
    match arguments.get("tags"@) {
        Some(JsonView::Array(items)) => strings_among(items),
        _ => Seq::empty(),
    }
}

/// What invoking the tool `name` with `arguments` comes to: the call to
/// make, or why there is none. Arguments that are left out count as an
/// empty object.
pub open spec fn plan_tool(name: Seq<char>, arguments: Option<JsonView>) -> Result<
    CallView,
    Seq<char>,
> {
    let arguments = match arguments {
        Some(arguments) => arguments,
        None => empty_object(),
    };
    if name == "add_memo"@ {
        match string_member(arguments, "content"@) {
            Some(content) => Ok(CallView::AddMemo { content, tags: tags_of(arguments) }),
            None => Err("Missing content"@),
        }
    } else if name == "get_system_stats"@ {
        Ok(CallView::SystemStats)
    } else if name == "list_files_by_extension"@ {
        match string_member(arguments, "extension"@) {
            Some(extension) => Ok(CallView::ListFiles { extension }),
            None => Err("Missing extension"@),
        }
    } else {
        Err("Tool not found: "@ + name)
    }
}

/// Reads the tags out of the arguments of `add_memo`.
fn read_tags(arguments: &Json) -> (tags: Vec<String>)
    ensures
        tags.deep_view() == tags_of(arguments@),
{
    let mut tags: Vec<String> = Vec::new();
    let items = match arguments.get("tags") {
        Some(value) => match value.as_array() {
            Some(items) => items,
            None => {
                return tags;
            },
        },
        None => {
            return tags;
        },
    };
    let mut i: usize = 0;
    while i < items.len()
        invariant
            i <= items.len(),
            tags.deep_view() == strings_among(items.deep_view().take(i as int)),
        decreases items.len() - i,
    {
        let ghost head = items.deep_view().take(i as int + 1);
        assert(head.drop_last() =~= items.deep_view().take(i as int));
        match items[i].as_str() {
            Some(tag) => {
                tags.push(String::from_str(tag));
            },
            None => {},
        }
        i += 1;
    }
    assert(items.deep_view().take(i as int) =~= items.deep_view());
    tags
}

/// Checks the name of a tool and its arguments, and says which call is to
/// be made.
pub fn handle_call_tool(name: &str, arguments: Option<&Json>) -> (r: Result<Call, String>)
    ensures
        plan_view(r) == plan_tool(name@, arguments.deep_view()),
{
    let none = Json::object();
    let arguments = match arguments {
        Some(arguments) => arguments,
        None => &none,
    };
    if str_eq(name, "add_memo") {
        match arguments.get_str("content") {
            Some(content) => Ok(
                Call::AddMemo { content: String::from_str(content), tags: read_tags(arguments) },
            ),
            None => Err(String::from_str("Missing content")),
        }
    } else if str_eq(name, "get_system_stats") {
        Ok(Call::SystemStats)
    } else if str_eq(name, "list_files_by_extension") {
        match arguments.get_str("extension") {
            Some(extension) => Ok(Call::ListFiles { extension: String::from_str(extension) }),
            None => Err(String::from_str("Missing extension")),
        }
    } else {
        Err(String::from_str("Tool not found: ").concat(name))
    }
}

/// The content of a tool's report: one block of text.
pub open spec fn text_content(report: Seq<char>) -> JsonView {
    empty_object().with(
        "content"@,
        empty_array().and(empty_object().with("type"@, text("text"@)).with("text"@, text(report))),
    )
}

/// Builds the content of a tool's report.
fn make_text_content(report: &str) -> (r: Json)
    ensures
        r@ == text_content(report@),
{
    let block = Json::object().with("type", Json::text("text")).with("text", Json::text(report));
    Json::object().with("content", Json::array().and(block))
}

/// What `add_memo` reports once the store has given the note an id.
pub open spec fn memo_added_text(id: int) -> Seq<char> {
    "Memo added successfully with ID: "@ + decimal(id)
}

/// The report of `add_memo` for the note that the store filed under `id`.
pub fn memo_added(id: i64) -> (r: Json)
    ensures
        r@ == text_content(memo_added_text(id as int)),
{
    let number = i64_to_decimal(id);
    let report = String::from_str("Memo added successfully with ID: ").concat(number.as_str());
    make_text_content(report.as_str())
}

/// The number of whole mebibytes in a number of bytes.
pub open spec fn mebibytes(bytes: nat) -> nat {
    bytes / 1024 / 1024
}

/// The two lines that show a reading of the machine's load.
pub open spec fn stats_text(stats: StatsView) -> Seq<char> {
    "CPU Usage: "@ + stats.cpu_usage + "%\nMemory Usage: "@ + stats.memory_usage + "% (Used: "@
        + digits(mebibytes(stats.used_memory)) + " MB / Total: "@ + digits(
        mebibytes(stats.total_memory),
    ) + " MB)"@
}

/// Writes a reading of the machine's load as text.
pub fn stats_report(stats: &SystemStats) -> (s: String)
    ensures
        s@ == stats_text(stats@),
{
    let used = u64_to_decimal(stats.used_memory / 1024 / 1024);
    let total = u64_to_decimal(stats.total_memory / 1024 / 1024);
    let mut s = String::from_str("CPU Usage: ");
    s.append(stats.cpu_usage.as_str());
    s.append("%\nMemory Usage: ");
    s.append(stats.memory_usage.as_str());
    s.append("% (Used: ");
    s.append(used.as_str());
    s.append(" MB / Total: ");
    s.append(total.as_str());
    s.append(" MB)");
    s
}

/// The report of `get_system_stats` for a reading of the machine's load.
pub fn system_stats(stats: &SystemStats) -> (r: Json)
    ensures
        r@ == text_content(stats_text(stats@)),
{
    let report = stats_report(stats);
    make_text_content(report.as_str())
}

/// The paths of the files whose extension is `extension`, in the order of
/// the walk.
pub open spec fn matching_paths(entries: Seq<FileEntryView>, extension: Seq<char>) -> Seq<
    Seq<char>,
>
    decreases entries.len(),
{
    if entries.len() == 0 {
        Seq::empty()
    } else if entries.last().extension == Some(extension) {
        matching_paths(entries.drop_last(), extension).push(entries.last().path)
    } else {
        matching_paths(entries.drop_last(), extension)
    }
}

/// What `list_files_by_extension` reports: the matching paths, one on each
/// line, or a sentence that says there are none.
pub open spec fn files_text(entries: Seq<FileEntryView>, extension: Seq<char>) -> Seq<char> {
    let listing = join(matching_paths(entries, extension), "\n"@);
    if listing.len() == 0 {
        "No files found."@
    } else {
        listing
    }
}

/// The report of `list_files_by_extension` for the files that a walk found.
pub fn files_found(entries: &Vec<FileEntry>, extension: &str) -> (r: Json)
    ensures
        r@ == text_content(files_text(entries.deep_view(), extension@)),
{
    let mut paths: Vec<String> = Vec::new();
    let mut i: usize = 0;
    while i < entries.len()
        invariant
            i <= entries.len(),
            paths.deep_view() == matching_paths(entries.deep_view().take(i as int), extension@),
        decreases entries.len() - i,
    {
        let ghost head = entries.deep_view().take(i as int + 1);
        assert(head.drop_last() =~= entries.deep_view().take(i as int));
        let matches = match &entries[i].extension {
            Some(found) => str_eq(found.as_str(), extension),
            None => false,
        };
        if matches {
            paths.push(entries[i].path.clone());
        }
        i += 1;
    }
    assert(entries.deep_view().take(i as int) =~= entries.deep_view());
    let listing = join_strings(&paths, "\n");
    if listing.as_str().is_empty() {
        make_text_content("No files found.")
    } else {
        make_text_content(listing.as_str())
    }
}

} // verus!
