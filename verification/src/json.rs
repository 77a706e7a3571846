//! JSON documents as the library reads them: the service indexes of a
//! package feed and `global.json`.
use vstd::prelude::*;
use vstd::string::StringExecFns;
use zed_extension_api::serde_json;

verus! {

broadcast use vstd::string::group_string_axioms;

#[verifier::external_type_specification]
#[verifier::external_body]
pub struct ExJsonTree(serde_json::Value);

#[verifier::external_type_specification]
#[verifier::external_body]
pub struct ExJsonError(serde_json::Error);

/// A JSON value. Numbers are kept only as the fact that a number stood there:
/// nothing in the library reads their value. Object members keep the order in
/// which the parser hands them out.
pub enum JsonValue {
    Null,
    Bool(bool),
    Number,
    Str(String),
    Array(Vec<JsonValue>),
    Object(Vec<(String, JsonValue)>),
}

/// The document that `serde_json::from_str` reads from a text, or `None` when
/// the text is not JSON.
pub uninterp spec fn json_text_document(text: Seq<char>) -> Option<JsonValue>;

/// What `serde_json::from_slice` makes of bytes: the document they hold, or,
/// when they are not JSON, the text with which the parser's error displays
/// itself.
pub uninterp spec fn json_bytes_outcome(bytes: Seq<u8>) -> Result<JsonValue, Seq<char>>;

/// Turns serde_json's tree into the library's, node for node: each variant
/// becomes the variant of the same name, with its fields moved over.
#[verifier::external_body]
fn json_tree(value: serde_json::Value) -> JsonValue {
    match value {
        serde_json::Value::Null => JsonValue::Null,
        serde_json::Value::Bool(b) => JsonValue::Bool(b),
        serde_json::Value::Number(_) => JsonValue::Number,
        serde_json::Value::String(s) => JsonValue::Str(s),
        serde_json::Value::Array(items) => JsonValue::Array(items.into_iter().map(json_tree).collect()),
        serde_json::Value::Object(members) => JsonValue::Object(
            members.into_iter().map(|(k, v)| (k, json_tree(v))).collect(),
        ),
    }
}

/// `serde_json::from_str::<Value>`: parses a JSON text. The contract names the
/// parsed document ([`json_text_document`]) and says that the call fails
/// exactly when there is none.
#[verifier::external_body]
pub(crate) fn parse_json_text(text: &str) -> (r: Result<JsonValue, serde_json::Error>)
    ensures
        match r {
            Ok(v) => json_text_document(text@) == Some(v),
            Err(_) => json_text_document(text@) is None,
        },
{
    serde_json::from_str::<serde_json::Value>(text).map(json_tree)
}

/// `serde_json::from_slice::<Value>`: parses JSON bytes; a failure is turned
/// into the text its error displays. The contract names the outcome
/// ([`json_bytes_outcome`]): the parsed document, or the error's text.
#[verifier::external_body]
pub(crate) fn parse_json_bytes(bytes: &[u8]) -> (r: Result<JsonValue, String>)
    ensures
        match r {
            Ok(v) => json_bytes_outcome(bytes@) == Ok::<JsonValue, Seq<char>>(v),
            Err(t) => json_bytes_outcome(bytes@) == Err::<JsonValue, Seq<char>>(t@),
        },
{
    serde_json::from_slice::<serde_json::Value>(bytes).map(json_tree).map_err(|e| e.to_string())
}

/// The value of the first member named `key`, if any.
pub open spec fn entry_lookup(entries: Seq<(String, JsonValue)>, key: Seq<char>) -> Option<
    JsonValue,
>
    decreases entries.len(),
{
    if entries.len() == 0 {
        None
    } else if entries[0].0@ == key {
        Some(entries[0].1)
    } else {
        entry_lookup(entries.drop_first(), key)
    }
}

/// `Value::get` with a string key: the member of an object; nothing for any
/// other value.
pub open spec fn member(v: JsonValue, key: Seq<char>) -> Option<JsonValue> {
    match v {
        JsonValue::Object(entries) => entry_lookup(entries@, key),
        _ => None,
    }
}

pub open spec fn deref_opt(o: Option<&JsonValue>) -> Option<JsonValue> {
    match o {
        Some(v) => Some(*v),
        None => None,
    }
}

impl JsonValue {
    /// The member named `key` of an object.
    pub fn get<'a>(&'a self, key: &str) -> (r: Option<&'a JsonValue>)
        ensures
            deref_opt(r) == member(*self, key@),
    {
        match self {
            JsonValue::Object(entries) => {
                let k = String::from_str(key);
                let mut i: usize = 0;
                assert(entries@.skip(0) == entries@);
                while i < entries.len()
                    invariant
                        i <= entries@.len(),
                        member(*self, key@) == entry_lookup(entries@, key@),
                        k@ == key@,
                        entry_lookup(entries@, key@) == entry_lookup(entries@.skip(i as int), key@),
                    decreases entries.len() - i,
                {
                    let entry = &entries[i];
                    assert(entries@.skip(i as int).drop_first() == entries@.skip(i + 1));
                    assert(entries@.skip(i as int)[0] == entries@[i as int]);
                    if entry.0 == k {
                        return Some(&entry.1);
                    }
                    i = i + 1;
                }
                None
            },
            _ => None,
        }
    }

    /// The text of a string value.
    pub fn as_str(&self) -> (r: Option<&str>)
        ensures
            match r {
                Some(s) => *self matches JsonValue::Str(t) && t@ == s@,
                None => !(*self is Str),
            },
    {
        match self {
            JsonValue::Str(s) => Some(s.as_str()),
            _ => None,
        }
    }

    /// The items of an array value.
    pub fn as_array(&self) -> (r: Option<&Vec<JsonValue>>)
        ensures
            match r {
                Some(items) => *self matches JsonValue::Array(a) && a == *items,
                None => !(*self is Array),
            },
    {
        match self {
            JsonValue::Array(items) => Some(items),
            _ => None,
        }
    }
}

} // verus!
