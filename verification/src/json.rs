//! JSON documents as trees of plain values, with the text codec at the edge.
//!
//! A [`Json`] value is an ordinary Rust tree; its view, [`JsonView`], is the
//! mathematical tree that every contract in this crate speaks of.
//!
//! Reading and writing JSON text is left to `serde_json`, through
//! [`parse_json`] and [`render_json`] and nowhere else. Nothing is proved of
//! what `serde_json` does. Two things are assumed of it: that the document
//! it reads from a text depends on the text alone, and that the text it
//! writes for a document depends on the document alone and holds no line
//! feed. The verifier knows the two results only by their names, [`parsed`]
//! and [`rendered`]. Between a `serde_json::Value` and a [`Json`] tree two
//! conversions go, variant by variant; what a value holds is named
//! [`document`].

use crate::text::single_line;
use crate::text::str_eq;
use vstd::prelude::*;
use vstd::string::StringExecFns;

verus! {

/// `serde_json::Number`, carried through without a look inside.
#[verifier::external_type_specification]
#[verifier::external_body]
pub struct ExNumber(serde_json::Number);

/// `serde_json::Value`, which only the two conversions below touch.
#[verifier::external_type_specification]
#[verifier::external_body]
pub struct ExValue(serde_json::Value);

/// `serde_json::Error`, of which only its presence is used.
#[verifier::external_type_specification]
#[verifier::external_body]
pub struct ExError(serde_json::Error);

/// A JSON document.
///
/// An object keeps its members as a list. What it stands for is a map from
/// keys to values: the order of the members does not count, and where a key
/// occurs more than once the last member with that key is the one that
/// counts.
#[derive(Debug, PartialEq)]
pub enum Json {
    Null,
    Bool(bool),
    /// A number, carried as `serde_json` read it.
    Number(serde_json::Number),
    String(String),
    Array(Vec<Json>),
    Object(Vec<(String, Json)>),
}

/// The mathematical value of a [`Json`] document.
pub ghost enum JsonView {
    Null,
    Bool(bool),
    Number(serde_json::Number),
    String(Seq<char>),
    Array(Seq<JsonView>),
    Object(Map<Seq<char>, JsonView>),
}

/// The object that a list of members stands for: every key that occurs,
/// with the value of the last member under it.
pub open spec fn members_map(members: Seq<(Seq<char>, JsonView)>) -> Map<Seq<char>, JsonView>
    decreases members.len(),
{
    if members.len() == 0 {
        Map::empty()
    } else {
        members_map(members.drop_last()).insert(members.last().0, members.last().1)
    }
}

/// The mathematical value of a document, by recursion over the tree.
pub open spec fn json_view(json: Json) -> JsonView
    decreases json,
{
    match json {
        Json::Null => JsonView::Null,
        Json::Bool(b) => JsonView::Bool(b),
        Json::Number(n) => JsonView::Number(n),
        Json::String(s) => JsonView::String(s@),
        Json::Array(items) => JsonView::Array(items_view(items@)),
        Json::Object(members) => JsonView::Object(members_view(members@)),
    }
}

/// The values of the items of an array, in order.
pub open spec fn items_view(items: Seq<Json>) -> Seq<JsonView>
    decreases items,
{
    if items.len() == 0 {
        Seq::empty()
    } else {
        items_view(items.drop_last()).push(json_view(items.last()))
    }
}

/// The object that the members of a list stand for.
pub open spec fn members_view(members: Seq<(String, Json)>) -> Map<Seq<char>, JsonView>
    decreases members,
{
    if members.len() == 0 {
        Map::empty()
    } else {
        members_view(members.drop_last()).insert(
            members.last().0@,
            json_view(members.last().1),
        )
    }
}

impl View for Json {
    type V = JsonView;

    open spec fn view(&self) -> JsonView {
        json_view(*self)
    }
}

impl DeepView for Json {
    type V = JsonView;

    open spec fn deep_view(&self) -> JsonView {
        self@
    }
}

/// The value of the last member of `members` whose key is `key`.
pub open spec fn lookup(members: Seq<(Seq<char>, JsonView)>, key: Seq<char>) -> Option<JsonView>
    decreases members.len(),
{
    if members.len() == 0 {
        None
    } else if members.last().0 == key {
        Some(members.last().1)
    } else {
        lookup(members.drop_last(), key)
    }
}

/// A lookup in a list of members finds what the object holds under the key.
pub proof fn lemma_lookup(members: Seq<(Seq<char>, JsonView)>, key: Seq<char>)
    ensures
        lookup(members, key) == JsonView::Object(members_map(members)).get(key),
    decreases members.len(),
{
    if members.len() > 0 {
        lemma_lookup(members.drop_last(), key);
    }
}

impl JsonView {
    /// The member of an object under `key`; nothing for any other document.
    pub open spec fn get(self, key: Seq<char>) -> Option<JsonView> {
        match self {
            JsonView::Object(members) => if members.contains_key(key) {
                Some(members[key])
            } else {
                None
            },
            _ => None,
        }
    }

    /// The characters of a string; nothing for any other document.
    pub open spec fn as_str(self) -> Option<Seq<char>> {
        match self {
            JsonView::String(s) => Some(s),
            _ => None,
        }
    }

    /// The items of an array; nothing for any other document.
    pub open spec fn as_array(self) -> Option<Seq<JsonView>> {
        match self {
            JsonView::Array(items) => Some(items),
            _ => None,
        }
    }

    /// An object with `value` under `key`, in place of what it held there
    /// before; any other document is left as it is.
    pub open spec fn with(self, key: Seq<char>, value: JsonView) -> JsonView {
        match self {
            JsonView::Object(members) => JsonView::Object(members.insert(key, value)),
            _ => self,
        }
    }

    /// An array with one more item at its end; any other document is left
    /// as it is.
    pub open spec fn and(self, item: JsonView) -> JsonView {
        match self {
            JsonView::Array(items) => JsonView::Array(items.push(item)),
            _ => self,
        }
    }
}

/// The member of a document under `key`, where it is a string.
pub open spec fn string_member(document: JsonView, key: Seq<char>) -> Option<Seq<char>> {
    match document.get(key) {
        Some(value) => value.as_str(),
        None => None,
    }
}

/// The member of a document under `key`, where it is there and not `null`.
pub open spec fn present_member(document: JsonView, key: Seq<char>) -> Option<JsonView> {
    match document.get(key) {
        Some(JsonView::Null) => None,
        other => other,
    }
}

/// The object without members.
pub open spec fn empty_object() -> JsonView {
    JsonView::Object(Map::empty())
}

/// The array without items.
pub open spec fn empty_array() -> JsonView {
    JsonView::Array(Seq::empty())
}

/// The string document that holds `s`.
pub open spec fn text(s: Seq<char>) -> JsonView {
    JsonView::String(s)
}

/// The view of a list of items holds the view of each item at its place.
proof fn lemma_items_view(items: Seq<Json>)
    ensures
        items_view(items).len() == items.len(),
        forall|i: int| 0 <= i < items.len() ==> (#[trigger] items_view(items)[i]) == items[i]@,
    decreases items.len(),
{
    if items.len() > 0 {
        lemma_items_view(items.drop_last());
    }
}

/// The view of a list of members is the map that the views of the members,
/// one by one, stand for.
proof fn lemma_members_view(members: Seq<(String, Json)>)
    ensures
        members_view(members) == members_map(
            Seq::new(members.len(), |i: int| (members[i].0@, members[i].1@)),
        ),
    decreases members.len(),
{
    let listed = Seq::new(members.len(), |i: int| (members[i].0@, members[i].1@));
    if members.len() > 0 {
        let shorter = members.drop_last();
        lemma_members_view(shorter);
        assert(listed.drop_last() =~= Seq::new(
            shorter.len(),
            |i: int| (shorter[i].0@, shorter[i].1@),
        ));
    }
}

/// The view of an array is the view of its items, one by one.
pub proof fn lemma_array_view(items: Vec<Json>)
    ensures
        Json::Array(items)@ == JsonView::Array(items.deep_view()),
{
    lemma_items_view(items@);
    assert(items_view(items@) =~= items.deep_view());
}

/// The view of an object is the map that the views of its members stand
/// for.
pub proof fn lemma_object_view(members: Vec<(String, Json)>)
    ensures
        Json::Object(members)@ == JsonView::Object(members_map(members.deep_view())),
{
    lemma_members_view(members@);
    assert(Seq::new(members@.len(), |i: int| (members@[i].0@, members@[i].1@))
        =~= members.deep_view());
}

impl Json {
    /// The object without members.
    pub fn object() -> (r: Json)
        ensures
            r@ == empty_object(),
    {
        let members: Vec<(String, Json)> = Vec::new();
        Json::Object(members)
    }

    /// The array without items.
    pub fn array() -> (r: Json)
        ensures
            r@ == empty_array(),
    {
        let items: Vec<Json> = Vec::new();
        Json::Array(items)
    }

    /// The string document that holds `s`.
    pub fn text(s: &str) -> (r: Json)
        ensures
            r@ == text(s@),
    {
        Json::String(String::from_str(s))
    }

    /// Puts `value` under `key` in an object, by a new member at the end of
    /// its list. Any other document comes back as it was.
    pub fn with(self, key: &str, value: Json) -> (r: Json)
        ensures
            r@ == self@.with(key@, value@),
    {
        match self {
            Json::Object(mut members) => {
                proof {
                    lemma_object_view(members);
                }
                let ghost before = members.deep_view();
                members.push((String::from_str(key), value));
                proof {
                    lemma_object_view(members);
                    assert(members.deep_view() =~= before.push((key@, value@)));
                    assert(before.push((key@, value@)).drop_last() =~= before);
                }
                Json::Object(members)
            },
            other => other,
        }
    }

    /// Appends an item to an array. Any other document comes back as it was.
    pub fn and(self, item: Json) -> (r: Json)
        ensures
            r@ == self@.and(item@),
    {
        match self {
            Json::Array(mut items) => {
                proof {
                    lemma_array_view(items);
                }
                let ghost before = items.deep_view();
                items.push(item);
                proof {
                    lemma_array_view(items);
                    assert(items.deep_view() =~= before.push(item@));
                }
                Json::Array(items)
            },
            other => other,
        }
    }

    /// The member of an object under `key`.
    pub fn get(&self, key: &str) -> (r: Option<&Json>)
        ensures
            r.deep_view() == self@.get(key@),
    {
        match self {
            Json::Object(members) => {
                proof {
                    lemma_object_view(*members);
                    lemma_lookup(members.deep_view(), key@);
                }
                let mut i: usize = members.len();
                assert(members.deep_view().take(i as int) =~= members.deep_view());
                while i > 0
                    invariant
                        i <= members.len(),
                        self@.get(key@) == lookup(members.deep_view(), key@),
                        lookup(members.deep_view(), key@) == lookup(
                            members.deep_view().take(i as int),
                            key@,
                        ),
                    decreases i,
                {
                    i -= 1;
                    let ghost head = members.deep_view().take(i as int + 1);
                    assert(head.drop_last() =~= members.deep_view().take(i as int));
                    if str_eq(members[i].0.as_str(), key) {
                        return Some(&members[i].1);
                    }
                }
                None
            },
            _ => None,
        }
    }

    /// The member of an object under `key`, where it is a string.
    pub fn get_str(&self, key: &str) -> (r: Option<&str>)
        ensures
            r.deep_view() == string_member(self@, key@),
    {
        match self.get(key) {
            Some(value) => value.as_str(),
            None => None,
        }
    }

    /// The characters of a string document.
    pub fn as_str(&self) -> (r: Option<&str>)
        ensures
            r.deep_view() == self@.as_str(),
    {
        match self {
            Json::String(s) => Some(s.as_str()),
            _ => None,
        }
    }

    /// The items of an array document.
    pub fn as_array(&self) -> (r: Option<&Vec<Json>>)
        ensures
            r.deep_view() == self@.as_array(),
    {
        match self {
            Json::Array(items) => {
                proof {
                    lemma_array_view(*items);
                }
                Some(items)
            },
            _ => None,
        }
    }
}

/// What `serde_json::from_str` makes of a text: the document it reads, or
/// nothing where the text is not one well-formed JSON document.
pub uninterp spec fn parsed(text: Seq<char>) -> Option<JsonView>;

/// The text that `serde_json` writes for a document, in its compact form.
pub uninterp spec fn rendered(json: JsonView) -> Seq<char>;

/// What a `serde_json::Value` holds, as a tree: an object is the map from
/// its keys to what its values hold, an array the list of what its items
/// hold, and a string, a number, a boolean or `null` itself.
pub uninterp spec fn document(value: serde_json::Value) -> JsonView;

/// Takes a `serde_json::Value` apart into a [`Json`] tree, variant by
/// variant, so that the tree holds what the value held. The members of an
/// object come in the order in which `serde_json` hands them out.
#[verifier::external_body]
fn unpack(value: serde_json::Value) -> (json: Json)
    ensures
        json@ == document(value),
{
    match value {
        serde_json::Value::Null => Json::Null,
        serde_json::Value::Bool(b) => Json::Bool(b),
        serde_json::Value::Number(n) => Json::Number(n),
        serde_json::Value::String(s) => Json::String(s),
        serde_json::Value::Array(items) => Json::Array(items.into_iter().map(unpack).collect()),
        serde_json::Value::Object(map) => Json::Object(
            map.into_iter().map(|(key, item)| (key, unpack(item))).collect(),
        ),
    }
}

/// Builds the `serde_json::Value` that holds what a [`Json`] tree holds,
/// variant by variant. The members of an object go into a
/// `serde_json::Map` by `insert`, in order, so that a later member takes the
/// place of an earlier one with the same key, as in the view of the tree.
#[verifier::external_body]
fn pack(json: &Json) -> (value: serde_json::Value)
    ensures
        document(value) == json@,
{
    match json {
        Json::Null => serde_json::Value::Null,
        Json::Bool(b) => serde_json::Value::Bool(*b),
        Json::Number(n) => serde_json::Value::Number(n.clone()),
        Json::String(s) => serde_json::Value::String(s.clone()),
        Json::Array(items) => serde_json::Value::Array(items.iter().map(pack).collect()),
        Json::Object(members) => {
            let mut map = serde_json::Map::new();
            for (key, item) in members {
                map.insert(key.clone(), pack(item));
            }
            serde_json::Value::Object(map)
        },
    }
}

/// `serde_json::from_str` for a `serde_json::Value`. The contract claims
/// only that the outcome depends on the text alone: it succeeds exactly
/// where [`parsed`] holds a document, and the value then holds that
/// document.
#[verifier::external_body]
fn read_value(text: &str) -> (r: Result<serde_json::Value, serde_json::Error>)
    ensures
        match r {
            Ok(value) => parsed(text@) == Some(document(value)),
            Err(_) => parsed(text@) is None,
        },
{
    serde_json::from_str::<serde_json::Value>(text)
}

/// The `Display` of `serde_json::Value`, which writes the compact form. The
/// contract claims that the text depends on what the value holds alone, and
/// is the one named [`rendered`], and that it holds no line feed: the
/// compact form sets no whitespace between tokens and escapes every control
/// character inside a string.
#[verifier::external_body]
fn write_value(value: &serde_json::Value) -> (s: String)
    ensures
        s@ == rendered(document(*value)),
        single_line(s@),
{
    value.to_string()
}

/// Reads one JSON document from a text.
pub fn parse_json(text: &str) -> (r: Option<Json>)
    ensures
        r.deep_view() == parsed(text@),
{
    match read_value(text) {
        Ok(value) => Some(unpack(value)),
        Err(_) => None,
    }
}

/// Writes a document as compact JSON text on one line.
pub fn render_json(json: &Json) -> (s: String)
    ensures
        s@ == rendered(json@),
        single_line(s@),
{
    let value = pack(json);
    write_value(&value)
}

} // verus!
