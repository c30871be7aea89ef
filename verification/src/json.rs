//! JSON documents as trees of plain values, and the parser that produces them.

use crate::error::ParseError;
use vstd::prelude::*;

verus! {

/// A JSON value.
#[derive(Debug)]
pub enum JsonValue {
    Null,
    Bool(bool),
    /// A number, held as the IEEE 754 binary64 bit pattern of the value
    /// nearest to it; `None` where the number has no such value.
    Number(Option<u64>),
    String(String),
    Array(Vec<JsonValue>),
    /// The members of an object, each a key with its value.
    Object(Vec<(String, JsonValue)>),
}

/// `serde_json::Value`, opaque here: it is carried from the parser to
/// `into_tree` and read nowhere else.
#[verifier::external_type_specification]
#[verifier::external_body]
pub struct ExValue(serde_json::Value);

/// `serde_json::Error`, opaque here: only its presence is read.
#[verifier::external_type_specification]
#[verifier::external_body]
pub struct ExError(serde_json::Error);

/// The document that `text` denotes, where `serde_json::from_str` takes it
/// for well-formed JSON. Nothing here says which texts those are, but that
/// the empty text is none of them.
pub uninterp spec fn json_document(text: Seq<char>) -> Option<JsonValue>;

/// What a `serde_json::Value` holds, as a tree of plain values.
pub uninterp spec fn document_tree(value: serde_json::Value) -> JsonValue;

/// `serde_json::from_str` at `serde_json::Value`. Not proved: that its
/// outcome is a function of the text alone, which `json_document` names,
/// and that it fails on the empty text, where it finds the end of the
/// input in place of a value.
#[verifier::external_body]
fn parse_document(text: &str) -> (res: Result<serde_json::Value, serde_json::Error>)
    ensures
        res is Ok <==> json_document(text@) is Some,
        res is Ok ==> document_tree(res->Ok_0) == json_document(text@)->Some_0,
        text@.len() == 0 ==> res is Err,
{
    serde_json::from_str::<serde_json::Value>(text)
}

/// Moves a `serde_json::Value` into a `JsonValue`, variant by variant and
/// all the way down. A number becomes the bits of what
/// `serde_json::Number::as_f64` gives for it; the members of an object come
/// in the order in which `serde_json::Map` hands them out. Not proved: that
/// the result is a function of the value alone, which `document_tree` names.
#[verifier::external_body]
fn into_tree(value: serde_json::Value) -> (res: JsonValue)
    ensures
        res == document_tree(value),
{
    match value {
        serde_json::Value::Null => JsonValue::Null,
        serde_json::Value::Bool(b) => JsonValue::Bool(b),
        serde_json::Value::Number(n) => JsonValue::Number(n.as_f64().map(|x| x.to_bits())),
        serde_json::Value::String(s) => JsonValue::String(s),
        serde_json::Value::Array(a) => JsonValue::Array(a.into_iter().map(into_tree).collect()),
        serde_json::Value::Object(m) => JsonValue::Object(
            m.into_iter().map(|(k, v)| (k, into_tree(v))).collect(),
        ),
    }
}

/// Parses `text` as one JSON document. The empty text is none.
pub fn parse_json(text: &str) -> (res: Result<JsonValue, ParseError>)
    ensures
        res == parsed(text@),
        text@.len() == 0 ==> res == Err::<JsonValue, ParseError>(ParseError::InvalidJson),
{
    match parse_document(text) {
        Ok(value) => Ok(into_tree(value)),
        Err(_) => Err(ParseError::InvalidJson),
    }
}

/// What `parse_json` returns for `text`.
pub open spec fn parsed(text: Seq<char>) -> Result<JsonValue, ParseError> {
    match json_document(text) {
        Some(value) => Ok(value),
        None => Err(ParseError::InvalidJson),
    }
}

/// Whether two texts are the same, character for character.
#[verifier::loop_isolation(false)]
pub fn same_text(a: &str, b: &str) -> (res: bool)
    ensures
        res == (a@ == b@),
{
    let x = a.as_bytes();
    let y = b.as_bytes();
    proof {
        vstd::utf8::encode_utf8_decode_utf8(a@);
        vstd::utf8::encode_utf8_decode_utf8(b@);
    }
    if x.len() != y.len() {
        return false;
    }
    let mut i: usize = 0;
    while i < x.len()
        invariant
            x@.len() == y@.len(),
            i <= x@.len(),
            forall|j: int| 0 <= j < i ==> x@[j] == y@[j],
        decreases x@.len() - i,
    {
        if x[i] != y[i] {
            return false;
        }
        i += 1;
    }
    assert(x@ =~= y@);
    true
}

/// The value of the first of `members`, from position `from` on, whose key
/// is `key`.
pub open spec fn member_from(members: Seq<(String, JsonValue)>, key: Seq<char>, from: int) -> Option<
    JsonValue,
>
    decreases members.len() - from,
{
    if from < 0 || from >= members.len() {
        None
    } else if members[from].0@ == key {
        Some(members[from].1)
    } else {
        member_from(members, key, from + 1)
    }
}

impl JsonValue {
    /// The value that an object holds under `key`: that of its first member
    /// with this key. A value that is no object holds nothing.
    pub open spec fn member(self, key: Seq<char>) -> Option<JsonValue> {
        match self {
            JsonValue::Object(members) => member_from(members@, key, 0),
            _ => None,
        }
    }

    /// The text of a string value.
    pub open spec fn text(self) -> Option<Seq<char>> {
        match self {
            JsonValue::String(s) => Some(s@),
            _ => None,
        }
    }

    /// The items of an array value.
    pub open spec fn items(self) -> Option<Seq<JsonValue>> {
        match self {
            JsonValue::Array(items) => Some(items@),
            _ => None,
        }
    }

    /// The bits of a number value.
    pub open spec fn number(self) -> Option<u64> {
        match self {
            JsonValue::Number(bits) => bits,
            _ => None,
        }
    }

    /// Looks up `key` in an object.
    #[verifier::loop_isolation(false)]
    pub fn get(&self, key: &str) -> (res: Option<&JsonValue>)
        ensures
            res is Some <==> self.member(key@) is Some,
            res is Some ==> *res->Some_0 == self.member(key@)->Some_0,
    {
        match self {
            JsonValue::Object(members) => {
                let mut i: usize = 0;
                while i < members.len()
                    invariant
                        i <= members@.len(),
                        member_from(members@, key@, 0) == member_from(members@, key@, i as int),
                    decreases members@.len() - i,
                {
                    if same_text(members[i].0.as_str(), key) {
                        return Some(&members[i].1);
                    }
                    i += 1;
                }
                None
            },
            _ => None,
        }
    }
}

} // verus!
