//! JSON values. A value is carried as it is; what the library reads of it is its
//! compact text.

use serde_json::Value;
use vstd::prelude::*;

verus! {

/// `serde_json::Value`, carried as an opaque value.
#[verifier::external_type_specification]
#[verifier::external_body]
pub struct ExValue(serde_json::Value);

/// Name for what a JSON value holds, written as its compact text.
pub uninterp spec fn json_text(v: Value) -> Seq<char>;

/// Name for what `serde_json::from_str` makes of a text: the compact text of the
/// value, or `None` where the text is no JSON document.
pub uninterp spec fn json_parse(text: Seq<char>) -> Option<Seq<char>>;

/// Name for the compact text of the JSON string that holds a text.
pub uninterp spec fn json_string(text: Seq<char>) -> Seq<char>;

/// Name for the compact text of the object that `serde_json::Value` collects from keys
/// and values, which are given by their compact texts. Of two members with one key the
/// later stays.
pub uninterp spec fn json_object(fields: Seq<(Seq<char>, Seq<char>)>) -> Seq<char>;

/// Keys with values, over plain texts.
pub open spec fn field_texts(v: Seq<(String, Value)>) -> Seq<(Seq<char>, Seq<char>)> {
    v.map_values(|f: (String, Value)| (f.0@, json_text(f.1)))
}

/// The text of a parsed document, or that of `null` where it does not parse.
pub open spec fn json_parse_or_null(text: Seq<char>) -> Seq<char> {
    match json_parse(text) {
        Some(t) => t,
        None => "null"@,
    }
}

/// The text of an optional value.
pub open spec fn opt_json(o: Option<Value>) -> Option<Seq<char>> {
    match o {
        Some(v) => Some(json_text(v)),
        None => None,
    }
}

/// `serde_json::Value`'s `Clone`: the copy holds what the value holds.
pub assume_specification[ <Value as Clone>::clone ](v: &Value) -> (r: Value)
    ensures
        json_text(r) == json_text(*v),
;

/// `serde_json::to_string` on a value: its compact text. It cannot fail on a
/// `Value`, whose keys are strings.
#[verifier::external_body]
pub(crate) fn render(v: &Value) -> (r: String)
    ensures
        r@ == json_text(*v),
{
    serde_json::to_string(v).unwrap_or_default()
}

/// `serde_json::from_str` into a value; `None` where it returns an error.
#[verifier::external_body]
pub(crate) fn parse(text: &str) -> (r: Option<Value>)
    ensures
        opt_json(r) == json_parse(text@),
{
    serde_json::from_str(text).ok()
}

/// `serde_json::Value::default`, which is the JSON `null`.
#[verifier::external_body]
pub(crate) fn null() -> (r: Value)
    ensures
        json_text(r) == "null"@,
{
    Value::default()
}

/// `From<&str>` of `serde_json::Value`: the JSON string that holds a text, a function of
/// the text alone.
#[verifier::external_body]
pub(crate) fn string(text: &str) -> (r: Value)
    ensures
        json_text(r) == json_string(text@),
{
    Value::from(text)
}

/// `FromIterator` of `serde_json::Value` over keys and values: the object with these
/// members, whose text is a function of the keys and of the texts of the values.
#[verifier::external_body]
pub(crate) fn object(fields: Vec<(String, Value)>) -> (r: Value)
    ensures
        json_text(r) == json_object(field_texts(fields@)),
{
    fields.into_iter().collect::<Value>()
}

/// `serde_json::Value::is_null`: true of the value whose text is `null`, and of no
/// other.
#[verifier::external_body]
pub(crate) fn is_null(v: &Value) -> (r: bool)
    ensures
        r == (json_text(*v) == "null"@),
{
    v.is_null()
}

/// The document of a text, or `null` where the text is no JSON.
pub fn parse_or_null(text: &str) -> (r: Value)
    ensures
        json_text(r) == json_parse_or_null(text@),
{
    match parse(text) {
        Some(v) => v,
        None => null(),
    }
}

pub fn clone_opt_value(o: &Option<Value>) -> (r: Option<Value>)
    ensures
        opt_json(r) == opt_json(*o),
{
    match o {
        Some(v) => Some(v.clone()),
        None => None,
    }
}

/// A text that is a document is that document; one that is none is `null`.
pub proof fn law_documents_are_kept(text: Seq<char>)
    ensures
        json_parse(text) matches Some(t) ==> json_parse_or_null(text) == t,
        json_parse(text) is None ==> json_parse_or_null(text) == "null"@,
{
}

} // verus!
