//! The JSON values of `serde_json`, as the library reads and writes them.
//!
//! A `serde_json::Value` is opaque to the verifier. [`json`] names the tree that it holds, and
//! the contracts of this module say over that name what the methods of `serde_json` do.

use serde_json::Value;
use vstd::prelude::*;

verus! {

/// `serde_json::Value`, a JSON value.
#[verifier::external_type_specification]
#[verifier::external_body]
pub struct ExValue(serde_json::Value);

/// `serde_json::Map`, the members of a JSON object.
#[verifier::external_type_specification]
#[verifier::external_body]
#[verifier::reject_recursive_types(K)]
#[verifier::reject_recursive_types(V)]
pub struct ExMap<K, V>(serde_json::Map<K, V>);

/// What a JSON value is.
pub enum Json {
    Null,
    Bool(bool),
    /// A number, by the text that it is written as.
    Number(Seq<char>),
    Text(Seq<char>),
    Array(Seq<Json>),
    Object(Map<Seq<char>, Json>),
}

/// The tree that a `serde_json::Value` holds.
pub uninterp spec fn json(v: serde_json::Value) -> Json;

/// The members that a `serde_json::Map` holds.
pub uninterp spec fn members(m: serde_json::Map<String, serde_json::Value>) -> Map<Seq<char>, Json>;

/// The trees of a list of values.
pub open spec fn jsons(values: Seq<Value>) -> Seq<Json> {
    values.map_values(|v: Value| json(v))
}

/// The text that a value is, where it is a string.
pub open spec fn text_of(j: Json) -> Option<Seq<char>> {
    match j {
        Json::Text(s) => Some(s),
        _ => None,
    }
}

/// The items that a value has, where it is an array.
pub open spec fn items_of(j: Json) -> Option<Seq<Json>> {
    match j {
        Json::Array(items) => Some(items),
        _ => None,
    }
}

/// The texts among a list of values, in their order.
pub open spec fn texts_among(items: Seq<Json>) -> Seq<Seq<char>> {
    items.filter_map(|j: Json| text_of(j))
}

/// The value that one comes to from `j` when one goes from member to member by the given keys.
pub open spec fn json_at(j: Json, keys: Seq<Seq<char>>) -> Option<Json>
    decreases keys.len(),
{
    if keys.len() == 0 {
        Some(j)
    } else {
        match j {
            Json::Object(m) => if m.contains_key(keys[0]) {
                json_at(m[keys[0]], keys.drop_first())
            } else {
                None
            },
            _ => None,
        }
    }
}

/// A key that stands in a JSON pointer as it is, and that is no index of an array.
pub open spec fn plain_key(key: Seq<char>) -> bool {
    &&& forall|i: int| 0 <= i < key.len() ==> #[trigger] key[i] != '/' && key[i] != '~'
    &&& key.len() > 0 ==> !('0' <= key[0] <= '9')
}

/// The JSON pointer that goes along the given keys.
pub open spec fn pointer_text(keys: Seq<Seq<char>>) -> Seq<char>
    decreases keys.len(),
{
    if keys.len() == 0 {
        Seq::empty()
    } else {
        pointer_text(keys.drop_last()) + "/"@ + keys.last()
    }
}

/// `Value::as_str` gives the text of a string, and nothing for any other value.
pub assume_specification[ serde_json::Value::as_str ](v: &Value) -> (r: Option<&str>)
    ensures
        (match r {
            Some(s) => Some(s@),
            None => None,
        }) == text_of(json(*v)),
;

/// `Value::as_array` gives the items of an array, and nothing for any other value.
pub assume_specification[ serde_json::Value::as_array ](v: &Value) -> (r: Option<&Vec<Value>>)
    ensures
        (match r {
            Some(items) => Some(jsons(items@)),
            None => None,
        }) == items_of(json(*v)),
;

/// `Value::as_object` gives the members of an object, and nothing for any other value.
pub assume_specification[ serde_json::Value::as_object ](v: &Value) -> (r: Option<
    &serde_json::Map<String, Value>,
>)
    ensures
        match r {
            Some(m) => json(*v) == Json::Object(members(*m)),
            None => !(json(*v) is Object),
        },
;

/// `Value::is_null` tells whether a value is null.
pub assume_specification[ serde_json::Value::is_null ](v: &Value) -> (r: bool)
    ensures
        r == (json(*v) is Null),
;

/// `Map::is_empty` tells whether an object has no members.
pub assume_specification[ serde_json::Map::<String, Value>::is_empty ](
    m: &serde_json::Map<String, Value>,
) -> (r: bool)
    ensures
        r == (members(*m) == Map::<Seq<char>, Json>::empty()),
;

/// `Value::pointer` looks a value up by a JSON pointer. Stated for pointers along plain keys:
/// each step goes to the member of that name, and the lookup fails where there is none, or
/// where the value that was reached is no object.
pub assume_specification<'a>[ serde_json::Value::pointer ](v: &'a Value, pointer: &str) -> (r:
    Option<&'a Value>)
    ensures
        forall|keys: Seq<Seq<char>>|
            (forall|i: int| 0 <= i < keys.len() ==> plain_key(#[trigger] keys[i])) && pointer@
                == #[trigger] pointer_text(keys) ==> (match r {
                Some(found) => Some(json(*found)),
                None => None,
            }) == json_at(json(*v), keys),
;

/// Cloning a `Value` copies the tree that it holds.
pub assume_specification[ <serde_json::Value as Clone>::clone ](v: &Value) -> (r: Value)
    ensures
        json(r) == json(*v),
;

/// `Value::String` makes a JSON string of a text.
#[verifier::external_body]
pub(crate) fn text_value(s: String) -> (r: Value)
    ensures
        json(r) == Json::Text(s@),
{
    Value::String(s)
}

/// `Value::Array` makes a JSON array of values.
#[verifier::external_body]
pub(crate) fn array_value(items: Vec<Value>) -> (r: Value)
    ensures
        json(r) == Json::Array(jsons(items@)),
{
    Value::Array(items)
}

/// `Value::Object` makes a JSON object of members.
#[verifier::external_body]
pub(crate) fn object_value(m: serde_json::Map<String, Value>) -> (r: Value)
    ensures
        json(r) == Json::Object(members(m)),
{
    Value::Object(m)
}

/// The values of a list of texts.
pub open spec fn text_jsons(texts: Seq<String>) -> Seq<Json> {
    texts.map_values(|t: String| Json::Text(t@))
}

/// Makes a JSON array of texts.
pub fn texts_value(texts: &Vec<String>) -> (r: Value)
    ensures
        json(r) == Json::Array(text_jsons(texts@)),
{
    let mut items: Vec<Value> = Vec::new();
    let mut i: usize = 0;
    while i < texts.len()
        invariant
            i <= texts@.len(),
            items@.len() == i,
            forall|j: int| 0 <= j < i ==> #[trigger] json(items@[j]) == Json::Text(texts@[j]@),
        decreases texts@.len() - i,
    {
        items.push(text_value(texts[i].clone()));
        i = i + 1;
    }
    proof {
        assert(jsons(items@) =~= text_jsons(texts@));
    }
    array_value(items)
}

/// How the `Debug` of `serde_json::Value` writes a value.
pub uninterp spec fn debug_text(j: Json) -> Seq<char>;

/// Formats a `serde_json::Value` with its `Debug`, whose text depends on the value alone: the
/// members of an object come in the order of their keys, as `serde_json` keeps them without its
/// `preserve_order` feature.
#[verifier::external_body]
pub(crate) fn debug_value(v: &Value) -> (r: String)
    ensures
        r@ == debug_text(json(*v)),
{
    format!("{:?}", v)
}

/// The lower-case hexadecimal digit of a number below 16.
pub open spec fn hex_digit(d: nat) -> char
    recommends
        d < 16,
{
    if d < 10 {
        (48 + d) as char
    } else {
        (87 + d) as char
    }
}

/// A character as it stands inside a JSON string.
pub open spec fn json_char(c: char) -> Seq<char> {
    let code = c as nat;
    if c == '"' || c == '\\' {
        seq!['\\', c]
    } else if code == 8 {
        seq!['\\', 'b']
    } else if code == 9 {
        seq!['\\', 't']
    } else if code == 10 {
        seq!['\\', 'n']
    } else if code == 12 {
        seq!['\\', 'f']
    } else if code == 13 {
        seq!['\\', 'r']
    } else if code < 32 {
        seq!['\\', 'u', '0', '0', hex_digit(code / 16), hex_digit(code % 16)]
    } else {
        seq![c]
    }
}

/// Some characters as they stand inside a JSON string.
pub open spec fn json_chars(s: Seq<char>) -> Seq<char>
    decreases s.len(),
{
    if s.len() == 0 {
        Seq::empty()
    } else {
        json_char(s[0]) + json_chars(s.drop_first())
    }
}

/// A text as a JSON string.
pub open spec fn json_string(s: Seq<char>) -> Seq<char> {
    seq!['"'] + json_chars(s) + seq!['"']
}

/// Serialises a text with `serde_json::to_string`. It writes into memory, so that writing cannot
/// fail; it puts the text between quotes, and escapes quotes, backslashes and the control
/// characters below the space.
#[verifier::external_body]
pub(crate) fn serialize_text(s: &str) -> (r: Result<String, String>)
    ensures
        r is Ok,
        r->Ok_0@ == json_string(s@),
{
    serde_json::to_string(s).map_err(|e| e.to_string())
}

} // verus!
