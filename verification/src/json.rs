//! The boundary with `serde_json`: its value type, kept opaque, and what the
//! rest of the library takes on trust about reading, building, parsing and
//! printing such values.

use serde_json::Error;
use serde_json::Value;
use vstd::prelude::*;

verus! {

/// What the codec reads of one JSON value: an unsigned integer that fits in
/// 64 bits, a string, or anything else.
pub enum ScalarView {
    Unsigned(u64),
    Text(Seq<char>),
    Other,
}

/// One member of a document as the codec reads it.
#[derive(Debug, Clone, PartialEq, Eq)]
pub enum Scalar {
    /// A non-negative integer that fits in 64 bits.
    Unsigned(u64),
    /// A string.
    Text(String),
    /// A value of any other kind: null, a boolean, another number, an
    /// array, an object.
    Other,
}

impl View for Scalar {
    type V = ScalarView;

    open spec fn view(&self) -> ScalarView {
        match self {
            Scalar::Unsigned(n) => ScalarView::Unsigned(*n),
            Scalar::Text(s) => ScalarView::Text(s@),
            Scalar::Other => ScalarView::Other,
        }
    }
}

#[verifier::external_type_specification]
#[verifier::external_body]
pub struct ExValue(Value);

#[verifier::external_type_specification]
#[verifier::external_body]
pub struct ExError(Error);

#[verifier::external_type_specification]
#[verifier::external_body]
#[verifier::reject_recursive_types(K)]
#[verifier::reject_recursive_types(V)]
pub struct ExMap<K, V>(serde_json::Map<K, V>);

/// The members of the object that a JSON value holds, each under its key and
/// read as a scalar. A value that is no object has none.
pub uninterp spec fn members(value: Value) -> Map<Seq<char>, ScalarView>;

/// A JSON value read as a scalar.
pub uninterp spec fn scalar(value: Value) -> ScalarView;

/// The entries of a `serde_json::Map`, each under its key and read as a
/// scalar.
pub uninterp spec fn entries(object: serde_json::Map<String, Value>) -> Map<Seq<char>, ScalarView>;

/// The object without members.
pub open spec fn empty_members() -> Map<Seq<char>, ScalarView> {
    Map::empty()
}

/// The members of the value that `serde_json::from_str` reads from a text,
/// where it reads one.
pub uninterp spec fn json_parse(text: Seq<char>) -> Option<Map<Seq<char>, ScalarView>>;

/// The compact text that `serde_json` prints for a value.
pub uninterp spec fn json_text(value: Value) -> Seq<char>;

/// `serde_json::from_str`, asked for a `Value`. Taken on trust: whether a
/// text is read, and the members of the value read from it, depend on the
/// text alone.
#[verifier::external_body]
pub(crate) fn parse_value(text: &str) -> (parsed: Result<Value, Error>)
    ensures
        match parsed {
            Ok(value) => json_parse(text@) == Some(members(value)),
            Err(_) => json_parse(text@) is None,
        },
{
    serde_json::from_str::<Value>(text)
}

/// `Value::get` with a string key. Taken on trust: it finds the member of
/// that key in an object, and nothing in a value that has no such member.
#[verifier::external_body]
pub(crate) fn value_member<'a>(value: &'a Value, key: &str) -> (found: Option<&'a Value>)
    ensures
        match found {
            Some(member) => members(*value).dom().contains(key@) && members(*value)[key@]
                == scalar(*member),
            None => !members(*value).dom().contains(key@),
        },
{
    value.get(key)
}

/// `Value::as_u64`. Taken on trust: it gives the number exactly where the
/// value is a non-negative integer that fits in 64 bits.
#[verifier::external_body]
pub(crate) fn value_as_u64(value: &Value) -> (number: Option<u64>)
    ensures
        match number {
            Some(n) => scalar(*value) == ScalarView::Unsigned(n),
            None => !(scalar(*value) is Unsigned),
        },
{
    value.as_u64()
}

/// `Value::as_str`. Taken on trust: it gives the string exactly where the
/// value is one.
#[verifier::external_body]
pub(crate) fn value_as_str<'a>(value: &'a Value) -> (text: Option<&'a str>)
    ensures
        match text {
            Some(s) => scalar(*value) == ScalarView::Text(s@),
            None => !(scalar(*value) is Text),
        },
{
    value.as_str()
}

/// `Map::new`. Taken on trust: the new map has no entries.
#[verifier::external_body]
pub(crate) fn map_new() -> (object: serde_json::Map<String, Value>)
    ensures
        entries(object) == empty_members(),
{
    serde_json::Map::new()
}

/// `Map::insert`. Taken on trust: the value stands under the key afterwards,
/// in place of what stood there, and the other entries are as before.
#[verifier::external_body]
pub(crate) fn map_insert(object: &mut serde_json::Map<String, Value>, key: String, value: Value)
    ensures
        entries(*final(object)) == entries(*old(object)).insert(key@, scalar(value)),
{
    object.insert(key, value);
}

/// `Value::from` an unsigned integer. Taken on trust: the value is that
/// number.
#[verifier::external_body]
pub(crate) fn value_from_u64(number: u64) -> (value: Value)
    ensures
        scalar(value) == ScalarView::Unsigned(number),
{
    Value::from(number)
}

/// `Value::from` a string. Taken on trust: the value is that string.
#[verifier::external_body]
pub(crate) fn value_from_string(text: String) -> (value: Value)
    ensures
        scalar(value) == ScalarView::Text(text@),
{
    Value::from(text)
}

/// `Value::from` a map. Taken on trust: the value is the object whose
/// members are the map's entries.
#[verifier::external_body]
pub(crate) fn value_from_map(object: serde_json::Map<String, Value>) -> (value: Value)
    ensures
        members(value) == entries(object),
{
    Value::from(object)
}

/// `Value`'s `Display`, which prints the compact JSON text. Taken on trust:
/// the text depends on the value alone. Printing fails only where the writer
/// does, and a `String` takes all that is written to it.
#[verifier::external_body]
pub(crate) fn value_text(value: &Value) -> (text: String)
    ensures
        text@ == json_text(*value),
{
    value.to_string()
}

} // verus!
