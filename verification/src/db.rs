//! Records of the note store and their JSON text.
//!
//! The store itself lives outside this crate. What belongs here is the form
//! of what goes in and comes out: the tags of a note are kept as the text of
//! a JSON array of strings, and a list of notes is shown as a JSON array of
//! objects with the members `id`, `content`, `tags` and `created_at`, in that
//! order.

use crate::json::lemma_array_view;
use crate::json::render_json;
use crate::json::rendered;
use crate::json::text;
use crate::json::Json;
use crate::json::JsonView;
use crate::text::decimal;
use crate::text::i64_to_decimal;
use crate::text::join;
use crate::text::join_strings;
use vstd::prelude::*;
use vstd::string::StrSliceExecFns;
use vstd::string::StringExecFns;

verus! {

/// One stored note.
#[derive(Debug, PartialEq, Eq)]
pub struct Memo {
    pub id: i64,
    pub content: String,
    /// The tags, as the text of a JSON array of strings.
    pub tags: String,
    pub created_at: String,
}

/// The mathematical value of a [`Memo`].
pub ghost struct MemoView {
    pub id: int,
    pub content: Seq<char>,
    pub tags: Seq<char>,
    pub created_at: Seq<char>,
}

impl View for Memo {
    type V = MemoView;

    open spec fn view(&self) -> MemoView {
        MemoView {
            id: self.id as int,
            content: self.content@,
            tags: self.tags@,
            created_at: self.created_at@,
        }
    }
}

impl DeepView for Memo {
    type V = MemoView;

    open spec fn deep_view(&self) -> MemoView {
        self@
    }
}

/// Where the store is kept when nothing else has been configured.
pub open spec fn default_database_url() -> Seq<char> {
    "sqlite://dev_insights.db"@
}

/// The connection target of the store: the one configured, or the default.
pub open spec fn database_url_of(configured: Option<Seq<char>>) -> Seq<char> {
    match configured {
        Some(url) => url,
        None => default_database_url(),
    }
}

/// Picks the connection target of the store.
pub fn database_url(configured: Option<String>) -> (url: String)
    ensures
        url@ == database_url_of(configured.deep_view()),
{
    match configured {
        Some(url) => url,
        None => String::from_str("sqlite://dev_insights.db"),
    }
}

/// The path of the file behind a connection target of the form
/// `sqlite://` and a path; nothing for a target of any other form.
pub open spec fn sqlite_file_of(url: Seq<char>) -> Option<Seq<char>> {
    if "sqlite://"@.is_prefix_of(url) {
        Some(url.skip("sqlite://"@.len() as int))
    } else {
        None
    }
}

/// Finds the file behind a connection target, so that it can be made
/// before the store is opened.
pub fn sqlite_file(url: &str) -> (path: Option<&str>)
    ensures
        path.deep_view() == sqlite_file_of(url@),
{
    let prefix = "sqlite://";
    let width: usize = prefix.unicode_len();
    let length: usize = url.unicode_len();
    if length < width {
        return None;
    }
    let mut i: usize = 0;
    while i < width
        invariant
            i <= width,
            prefix@ == "sqlite://"@,
            width == prefix@.len(),
            length == url@.len(),
            width <= length,
            forall|k: int| 0 <= k < i ==> url@[k] == prefix@[k],
        decreases width - i,
    {
        if url.get_char(i) != prefix.get_char(i) {
            return None;
        }
        i += 1;
    }
    let path = url.substring_char(width, length);
    Some(path)
}

/// The JSON array that holds the tags as strings, in order.
pub open spec fn tags_document(tags: Seq<Seq<char>>) -> JsonView {
    JsonView::Array(tags.map_values(|tag: Seq<char>| text(tag)))
}

/// The text under which the store keeps the tags of a note.
pub open spec fn tags_text(tags: Seq<Seq<char>>) -> Seq<char> {
    rendered(tags_document(tags))
}

/// Writes the tags of a note as the text of a JSON array of strings.
pub fn encode_tags(tags: &Vec<String>) -> (s: String)
    ensures
        s@ == tags_text(tags.deep_view()),
{
    let mut items: Vec<Json> = Vec::new();
    let mut i: usize = 0;
    while i < tags.len()
        invariant
            i <= tags.len(),
            items.deep_view() == tags.deep_view().take(i as int).map_values(
                |tag: Seq<char>| text(tag),
            ),
        decreases tags.len() - i,
    {
        let ghost before = items.deep_view();
        items.push(Json::String(tags[i].clone()));
        assert(items.deep_view() =~= before.push(text(tags@[i as int]@)));
        i += 1;
    }
    proof {
        assert(tags.deep_view().take(i as int) =~= tags.deep_view());
        lemma_array_view(items);
    }
    render_json(&Json::Array(items))
}

/// The JSON text of one note.
pub open spec fn memo_text(memo: MemoView) -> Seq<char> {
    "{\"id\":"@ + decimal(memo.id) + ",\"content\":"@ + rendered(text(memo.content))
        + ",\"tags\":"@ + rendered(text(memo.tags)) + ",\"created_at\":"@ + rendered(
        text(memo.created_at),
    ) + "}"@
}

/// The JSON text of a list of notes, in the order of the list.
pub open spec fn memos_text(memos: Seq<MemoView>) -> Seq<char> {
    "["@ + join(memos.map_values(|memo: MemoView| memo_text(memo)), ","@) + "]"@
}

/// Writes one note as the text of a JSON object.
fn encode_memo(memo: &Memo) -> (s: String)
    ensures
        s@ == memo_text(memo@),
{
    let mut s = String::from_str("{\"id\":");
    let id = i64_to_decimal(memo.id);
    s.append(id.as_str());
    s.append(",\"content\":");
    let content = render_json(&Json::String(memo.content.clone()));
    s.append(content.as_str());
    s.append(",\"tags\":");
    let tags = render_json(&Json::String(memo.tags.clone()));
    s.append(tags.as_str());
    s.append(",\"created_at\":");
    let created_at = render_json(&Json::String(memo.created_at.clone()));
    s.append(created_at.as_str());
    s.append("}");
    s
}

/// Writes a list of notes as the text of a JSON array.
pub fn encode_memos(memos: &Vec<Memo>) -> (s: String)
    ensures
        s@ == memos_text(memos.deep_view()),
{
    let mut parts: Vec<String> = Vec::new();
    let mut i: usize = 0;
    while i < memos.len()
        invariant
            i <= memos.len(),
            parts.deep_view() == memos.deep_view().take(i as int).map_values(
                |memo: MemoView| memo_text(memo),
            ),
        decreases memos.len() - i,
    {
        let ghost before = parts.deep_view();
        parts.push(encode_memo(&memos[i]));
        assert(parts.deep_view() =~= before.push(memo_text(memos@[i as int]@)));
        i += 1;
    }
    assert(memos.deep_view().take(i as int) =~= memos.deep_view());
    let mut s = String::from_str("[");
    let body = join_strings(&parts, ",");
    s.append(body.as_str());
    s.append("]");
    s
}

} // verus!
