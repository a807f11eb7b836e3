//! JSON documents as mathematical values, and the `serde_json` calls that
//! build, write and read them.
//!
//! [`Json`] is the model of a document. The declarations of `serde_json` types and
//! the functions that call `serde_json` are trusted: each names what it stands for
//! and says what is believed of it.

use vstd::prelude::*;

verus! {

/// A JSON document.
///
/// Numbers are told apart as `serde_json` tells them apart: integers from zero
/// up, negative integers, and all others, which are identified by the bits of
/// the floating-point number that holds them.
#[verifier::ext_equal]
pub enum Json {
    Null,
    Bool(bool),
    Unsigned(u64),
    Negative(i64),
    Float(u64),
    Text(Seq<char>),
    Array(Seq<Json>),
    Object(Map<Seq<char>, Json>),
}

impl Json {
    /// The value of a field: there is one only in an object that has the key.
    pub open spec fn field(self, key: Seq<char>) -> Option<Json> {
        match self {
            Json::Object(fields) => if fields.contains_key(key) {
                Some(fields[key])
            } else {
                None
            },
            _ => None,
        }
    }

    /// The integer from zero up that the document is, if it is one.
    pub open spec fn unsigned(self) -> Option<u64> {
        match self {
            Json::Unsigned(n) => Some(n),
            _ => None,
        }
    }

    /// A text or an integer from zero up.
    pub open spec fn is_scalar(self) -> bool {
        self is Text || self is Unsigned
    }

    /// A scalar or an array of scalars.
    pub open spec fn is_flat(self) -> bool {
        match self {
            Json::Array(items) => forall|i: int|
                0 <= i < items.len() ==> (#[trigger] items[i]).is_scalar(),
            _ => self.is_scalar(),
        }
    }

    /// An object all of whose fields are flat.
    pub open spec fn is_record(self) -> bool {
        match self {
            Json::Object(fields) => forall|key: Seq<char>| #[trigger]
                fields.contains_key(key) ==> fields[key].is_flat(),
            _ => false,
        }
    }
}

/// Reading `text` gives `document`.
pub open spec fn reads_as(text: Seq<char>, document: Json) -> bool {
    json_parsed(text) matches Ok(read) && read == document
}

/// `text` is how `document` is written, and reading `text` gives `document` back.
pub open spec fn carries(text: Seq<char>, document: Json) -> bool {
    &&& text == json_text(document)
    &&& reads_as(text, document)
}

/// `serde_json::Value`: a document in memory.
#[verifier::external_type_specification]
#[verifier::external_body]
pub struct ExValue(serde_json::Value);

/// `serde_json::Map`: the fields of an object.
#[verifier::external_type_specification]
#[verifier::external_body]
#[verifier::reject_recursive_types(K)]
#[verifier::reject_recursive_types(V)]
pub struct ExFields<K, V>(serde_json::Map<K, V>);

/// `serde_json::Error`: why a text is not a document.
#[verifier::external_type_specification]
#[verifier::external_body]
pub struct ExError(serde_json::Error);

/// The document that a `serde_json::Value` holds.
pub uninterp spec fn json_of(value: serde_json::Value) -> Json;

/// The fields that a `serde_json::Map` holds.
pub uninterp spec fn fields_of(fields: serde_json::Map<String, serde_json::Value>) -> Map<Seq<char>, Json>;

/// The message of a `serde_json::Error`.
pub uninterp spec fn error_text(error: serde_json::Error) -> Seq<char>;

/// The compact text that `serde_json` writes for a document.
pub uninterp spec fn json_text(document: Json) -> Seq<char>;

/// What `serde_json` reads in a text: the document, or the message that says
/// why there is none.
pub uninterp spec fn json_parsed(text: Seq<char>) -> Result<Json, Seq<char>>;

/// What a parse result stands for: the document or the error message.
pub open spec fn parse_of(parsed: Result<serde_json::Value, serde_json::Error>) -> Result<
    Json,
    Seq<char>,
> {
    match parsed {
        Ok(value) => Ok(json_of(value)),
        Err(error) => Err(error_text(error)),
    }
}

/// Calls `serde_json::from_str` for a `serde_json::Value`.
///
/// The outcome is a function of the text alone: `json_parsed` names it.
#[verifier::external_body]
fn parse(text: &str) -> (parsed: Result<serde_json::Value, serde_json::Error>)
    ensures
        parse_of(parsed) == json_parsed(text@),
{
    serde_json::from_str::<serde_json::Value>(text)
}

/// Calls `to_string` on a `serde_json::Error`, which writes its message.
///
/// The errors that come here are those of `parse`, whose message is fixed by the
/// error.
#[verifier::external_body]
fn message(error: &serde_json::Error) -> (text: String)
    ensures
        text@ == error_text(*error),
{
    error.to_string()
}

/// What was read in a text: the document, or the message that says why there is
/// none.
pub open spec fn read_of(read: Result<serde_json::Value, String>) -> Result<Json, Seq<char>> {
    match read {
        Ok(value) => Ok(json_of(value)),
        Err(message) => Err(message@),
    }
}

/// Reads the document in a text.
pub(crate) fn read(text: &str) -> (read: Result<serde_json::Value, String>)
    ensures
        read_of(read) == json_parsed(text@),
{
    match parse(text) {
        Ok(value) => Ok(value),
        Err(error) => Err(message(&error)),
    }
}

/// Calls `serde_json::Value::get` with a string index: the field of that name,
/// or nothing where the value is no object or has no such field.
#[verifier::external_body]
pub(crate) fn get<'a>(value: &'a serde_json::Value, key: &str) -> (field: Option<&'a serde_json::Value>)
    ensures
        match field {
            Some(inner) => json_of(*value).field(key@) == Some(json_of(*inner)),
            None => json_of(*value).field(key@) is None,
        },
{
    value.get(key)
}

/// `serde_json::Value::as_u64`: the number, where the value is an integer from
/// zero up, and nothing otherwise.
pub assume_specification[ serde_json::Value::as_u64 ](value: &serde_json::Value) -> (n: Option<u64>)
    ensures
        n == json_of(*value).unsigned(),
;

/// Calls `serde_json::Value::from` on a `u64`: an integer from zero up.
#[verifier::external_body]
pub(crate) fn number(n: u64) -> (value: serde_json::Value)
    ensures
        json_of(value) == Json::Unsigned(n),
{
    serde_json::Value::from(n)
}

/// Calls `serde_json::Value::from` on a `String`: a text.
#[verifier::external_body]
pub(crate) fn text(s: String) -> (value: serde_json::Value)
    ensures
        json_of(value) == Json::Text(s@),
{
    serde_json::Value::from(s)
}

/// Calls `serde_json::Value::from` on a `Vec<serde_json::Value>`: an array of
/// those values, in their order.
#[verifier::external_body]
pub(crate) fn array(items: Vec<serde_json::Value>) -> (value: serde_json::Value)
    ensures
        json_of(value) == Json::Array(items@.map_values(|item: serde_json::Value| json_of(item))),
{
    serde_json::Value::from(items)
}

/// Calls `serde_json::Value::from` on a `serde_json::Map`: an object with those
/// fields.
#[verifier::external_body]
pub(crate) fn object(fields: serde_json::Map<String, serde_json::Value>) -> (value: serde_json::Value)
    ensures
        json_of(value) == Json::Object(fields_of(fields)),
{
    serde_json::Value::from(fields)
}

/// Calls `serde_json::Map::new`: no fields.
#[verifier::external_body]
pub(crate) fn no_fields() -> (fields: serde_json::Map<String, serde_json::Value>)
    ensures
        fields_of(fields).dom() == Set::<Seq<char>>::empty(),
{
    serde_json::Map::new()
}

/// Calls `serde_json::Map::insert`: the key now has that value, and the value
/// it had before is returned.
#[verifier::external_body]
pub(crate) fn insert(
    fields: &mut serde_json::Map<String, serde_json::Value>,
    key: String,
    value: serde_json::Value,
) -> (replaced: Option<serde_json::Value>)
    ensures
        fields_of(*final(fields)) == fields_of(*old(fields)).insert(key@, json_of(value)),
        match replaced {
            Some(earlier) => fields_of(*old(fields)).contains_key(key@) && json_of(earlier)
                == fields_of(*old(fields))[key@],
            None => !fields_of(*old(fields)).contains_key(key@),
        },
{
    fields.insert(key, value)
}

/// Calls `to_string` on a `serde_json::Value`, which writes it compactly.
///
/// The text is a function of the document alone: `json_text` names it. The
/// documents written here are objects whose fields are texts, integers from zero
/// up and arrays of these; `serde_json::from_str` reads such a document back as
/// it was.
#[verifier::external_body]
pub(crate) fn write(value: &serde_json::Value) -> (text: String)
    requires
        json_of(*value).is_record(),
    ensures
        text@ == json_text(json_of(*value)),
        reads_as(text@, json_of(*value)),
{
    value.to_string()
}

} // verus!
