//! JSON documents as the worker sees them, and the calls into `serde_json`
//! that read and write them.

use vstd::prelude::*;

verus! {

/// `serde_json::Number`. A number that fits `i64` stands in a `Json` as that
/// integer; any other is carried through unread.
#[verifier::external_type_specification]
#[verifier::external_body]
pub struct ExNumber(serde_json::Number);

/// `serde_json::Value`, the document as `serde_json` holds it.
#[verifier::external_type_specification]
#[verifier::external_body]
pub struct ExValue(serde_json::Value);

/// `serde_json::Error`, what a failed parse reports.
#[verifier::external_type_specification]
#[verifier::external_body]
pub struct ExError(serde_json::Error);

/// `serde_json::Map`, the collection that holds the members of an object.
#[verifier::external_type_specification]
#[verifier::external_body]
#[verifier::reject_recursive_types(K)]
#[verifier::reject_recursive_types(V)]
pub struct ExMap<K, V>(serde_json::Map<K, V>);

/// A JSON document. The members of an object stay in the `serde_json::Map`
/// that they were read into.
#[derive(Debug, PartialEq, Eq)]
pub enum Json {
    Null,
    Bool(bool),
    Integer(i64),
    Number(serde_json::Number),
    Text(String),
    Array(Vec<Json>),
    Object(serde_json::Map<String, serde_json::Value>),
}

/// The mathematical value of a JSON document: an object is a map from names to values.
pub enum JsonView {
    Null,
    Bool(bool),
    Integer(int),
    Number(serde_json::Number),
    Text(Seq<char>),
    Array(Seq<JsonView>),
    Object(Map<Seq<char>, JsonView>),
}

/// What an object holds: under each member's name, the value of the document
/// that stands there.
pub uninterp spec fn members(object: serde_json::Map<String, serde_json::Value>) -> Map<
    Seq<char>,
    JsonView,
>;

/// The members of an object that has none.
pub open spec fn no_members() -> Map<Seq<char>, JsonView> {
    Map::empty()
}

impl View for Json {
    type V = JsonView;

    open spec fn view(&self) -> JsonView
        decreases self,
    {
        match self {
            Json::Null => JsonView::Null,
            Json::Bool(b) => JsonView::Bool(*b),
            Json::Integer(whole) => JsonView::Integer(*whole as int),
            Json::Number(n) => JsonView::Number(*n),
            Json::Text(s) => JsonView::Text(s@),
            Json::Array(items) => JsonView::Array(
                Seq::new(
                    items.len() as nat,
                    |i: int|
                        if 0 <= i < items.len() {
                            items[i].view()
                        } else {
                            JsonView::Null
                        },
                ),
            ),
            Json::Object(object) => JsonView::Object(members(*object)),
        }
    }
}

impl Json {
    /// Whether the document stands in a `serde_json::Value` and comes back
    /// from it in the variant it went in with. A number may come back as an
    /// integer, and an array may hold such a number, so of those two nothing
    /// is said.
    pub open spec fn keeps_its_variant(&self) -> bool {
        !(self is Number) && !(self is Array)
    }
}

/// The document that `serde_json::from_str` reads from `text` when it is asked
/// for a `serde_json::Value`, or `None` where it rejects the text. What it
/// reads is not always what the text spells: of an object whose first member
/// is called `$serde_json::private::RawValue` it reads the text that this
/// member holds, in place of the object.
pub uninterp spec fn parsed_json(text: Seq<char>) -> Option<JsonView>;

/// The members of the object that `serde_json::from_str` reads from `text`
/// when it is asked for a `serde_json::Map`, or `None` where it rejects the
/// text: where the text is not JSON, or is JSON but no object. The members'
/// names are taken as the text spells them; what stands under them is read as
/// [`parsed_json`] reads a document.
pub uninterp spec fn parsed_object(text: Seq<char>) -> Option<Map<Seq<char>, JsonView>>;

/// The compact text that `serde_json::to_string` writes for `json`.
pub uninterp spec fn json_text(json: JsonView) -> Seq<char>;

/// Moves a `serde_json::Value` into a `Json`, variant by variant; a number is
/// an `Integer` where `serde_json::Number::as_i64` gives one, and an object
/// keeps its `serde_json::Map`.
#[verifier::external_body]
pub(crate) fn json_of_value(value: serde_json::Value) -> Json {
    match value {
        serde_json::Value::Null => Json::Null,
        serde_json::Value::Bool(b) => Json::Bool(b),
        serde_json::Value::Number(n) => n.as_i64().map_or(Json::Number(n), Json::Integer),
        serde_json::Value::String(s) => Json::Text(s),
        serde_json::Value::Array(items) => Json::Array(
            items.into_iter().map(json_of_value).collect(),
        ),
        serde_json::Value::Object(object) => Json::Object(object),
    }
}

/// Copies a `Json` into a `serde_json::Value`, variant by variant.
#[verifier::external_body]
fn value_of_json(json: &Json) -> serde_json::Value {
    match json {
        Json::Null => serde_json::Value::Null,
        Json::Bool(b) => serde_json::Value::Bool(*b),
        Json::Integer(i) => serde_json::Value::Number(serde_json::Number::from(*i)),
        Json::Number(n) => serde_json::Value::Number(n.clone()),
        Json::Text(s) => serde_json::Value::String(s.clone()),
        Json::Array(items) => serde_json::Value::Array(items.iter().map(value_of_json).collect()),
        Json::Object(object) => serde_json::Value::Object(object.clone()),
    }
}

/// `serde_json::Map::new`: an object without members.
#[verifier::external_body]
pub(crate) fn new_object() -> (object: serde_json::Map<String, serde_json::Value>)
    ensures
        members(object) == no_members(),
{
    serde_json::Map::new()
}

/// `serde_json::Map::get`: the member under `name`, handed out as a `Json`
/// of its own, or `None` where the object has no member of that name.
#[verifier::external_body]
pub(crate) fn member(object: &serde_json::Map<String, serde_json::Value>, name: &str) -> (found:
    Option<Json>)
    ensures
        match found {
            Some(json) => members(*object).contains_key(name@) && members(*object)[name@] == json@,
            None => !members(*object).contains_key(name@),
        },
{
    object.get(name).map(|value| json_of_value(value.clone()))
}

/// `serde_json::Map::insert`: afterwards the object holds `value` under
/// `name`, in the place of what stood there if anything did, and every other
/// member as before.
#[verifier::external_body]
pub(crate) fn put(
    object: &mut serde_json::Map<String, serde_json::Value>,
    name: String,
    value: &Json,
)
    requires
        value.keeps_its_variant(),
    ensures
        members(*final(object)) == members(*old(object)).insert(name@, value@),
{
    object.insert(name, value_of_json(value));
}

/// `serde_json::from_str::<serde_json::Value>`. The contract gives the result
/// its name: the document read, or a rejection. Nothing is claimed about which
/// texts are accepted.
#[verifier::external_body]
fn parse_json(text: &str) -> (parsed: Result<Json, serde_json::Error>)
    ensures
        match parsed {
            Ok(json) => parsed_json(text@) == Some(json@),
            Err(_) => parsed_json(text@) is None,
        },
{
    serde_json::from_str::<serde_json::Value>(text).map(json_of_value)
}

/// `serde_json::from_str::<serde_json::Map<String, serde_json::Value>>`. The
/// contract gives the result its name: the object read, or a rejection.
/// Nothing is claimed about which texts are accepted.
#[verifier::external_body]
fn parse_object(text: &str) -> (parsed: Result<
    serde_json::Map<String, serde_json::Value>,
    serde_json::Error,
>)
    ensures
        match parsed {
            Ok(object) => parsed_object(text@) == Some(members(object)),
            Err(_) => parsed_object(text@) is None,
        },
{
    serde_json::from_str::<serde_json::Map<String, serde_json::Value>>(text)
}

/// `serde_json::to_string` on a `serde_json::Value`. The contract gives the
/// text its name, and claims one fact of it: from the text of an object whose
/// members are all strings, the same members are read back as an object.
/// Writing a `Value` cannot fail; the empty string stands in for the error
/// that cannot occur.
#[verifier::external_body]
fn write_json(json: &Json) -> (text: String)
    ensures
        text@ == json_text(json@),
        json@.is_text_record() ==> parsed_object(text@) == Some(json@->Object_0),
{
    serde_json::to_string(&value_of_json(json)).unwrap_or_default()
}

impl JsonView {
    /// An object all of whose members are strings.
    pub open spec fn is_text_record(self) -> bool {
        match self {
            JsonView::Object(members) => forall|name: Seq<char>| #[trigger]
                members.contains_key(name) ==> members[name] is Text,
            _ => false,
        }
    }

    /// The member called `name`, where this is an object that has one.
    pub open spec fn member(self, name: Seq<char>) -> Option<JsonView> {
        match self {
            JsonView::Object(members) => if members.contains_key(name) {
                Some(members[name])
            } else {
                None
            },
            _ => None,
        }
    }

    /// The characters of a JSON string.
    pub open spec fn text(self) -> Option<Seq<char>> {
        match self {
            JsonView::Text(chars) => Some(chars),
            _ => None,
        }
    }
}

impl Json {
    /// Reads a document from its text.
    pub fn parse(text: &str) -> (parsed: Option<Json>)
        ensures
            match parsed {
                Some(json) => parsed_json(text@) == Some(json@),
                None => parsed_json(text@) is None,
            },
    {
        match parse_json(text) {
            Ok(json) => Some(json),
            Err(_) => None,
        }
    }

    /// Reads an object from its text; `None` where the text is no object.
    pub fn read_object(text: &str) -> (parsed: Option<Json>)
        ensures
            match parsed {
                Some(json) => json is Object && parsed_object(text@) == Some(json@->Object_0),
                None => parsed_object(text@) is None,
            },
    {
        match parse_object(text) {
            Ok(object) => Some(Json::Object(object)),
            Err(_) => None,
        }
    }

    /// Writes the document as compact text.
    pub fn to_text(&self) -> (text: String)
        ensures
            text@ == json_text(self@),
            self@.is_text_record() ==> parsed_object(text@) == Some(self@->Object_0),
    {
        write_json(self)
    }

    /// The member called `name`, where this is an object that has one.
    pub fn get(&self, name: &str) -> (found: Option<Json>)
        ensures
            match found {
                Some(json) => self@.member(name@) == Some(json@),
                None => self@.member(name@) is None,
            },
    {
        match self {
            Json::Object(object) => member(object, name),
            _ => None,
        }
    }

    /// The characters, where this is a JSON string.
    pub fn as_text(&self) -> (found: Option<&str>)
        ensures
            match found {
                Some(chars) => self@.text() == Some(chars@),
                None => self@.text() is None,
            },
    {
        match self {
            Json::Text(chars) => Some(chars.as_str()),
            _ => None,
        }
    }
}

} // verus!
