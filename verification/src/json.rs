//! JSON values of `serde_json`, seen through a mathematical model.
//!
//! The functions marked `external_body` in this file call into `serde_json`; their
//! contracts are stated, not proved.

use vstd::prelude::*;
use vstd::string::StringExecFns;

verus! {

/// A JSON number as `serde_json` stores it.
pub ghost enum JsonNumber {
    /// A non-negative integer.
    PosInt(u64),
    /// An integer below zero.
    NegInt(i64),
    /// A finite binary64 number, given by its bit pattern.
    Float(u64),
}

/// The mathematical content of a JSON value.
pub ghost enum JsonModel {
    Null,
    Bool(bool),
    Number(JsonNumber),
    String(Seq<char>),
    Array(Seq<JsonModel>),
    Object(Map<Seq<char>, JsonModel>),
}

#[verifier::external_type_specification]
#[verifier::external_body]
pub struct ExValue(serde_json::Value);

#[verifier::external_type_specification]
#[verifier::external_body]
pub struct ExJsonError(serde_json::Error);

/// What a `serde_json::Value` holds.
pub uninterp spec fn json_model(v: serde_json::Value) -> JsonModel;

/// What `serde_json::from_str` makes of a text: the value it reads, or the
/// message of the error with which it refuses the text.
pub uninterp spec fn json_parse(text: Seq<char>) -> Result<JsonModel, Seq<char>>;

/// The message that a `serde_json::Error` displays.
pub uninterp spec fn json_error_text(e: serde_json::Error) -> Seq<char>;

/// What `serde_json::to_string_pretty` writes for a value, or `None` where it
/// refuses the value. Objects are kept sorted by key, so the value's content
/// determines the text.
pub uninterp spec fn json_pretty(m: JsonModel) -> Option<Seq<char>>;

/// The contents of each value of a sequence.
pub open spec fn models_of(values: Seq<serde_json::Value>) -> Seq<JsonModel> {
    values.map_values(|v: serde_json::Value| json_model(v))
}

/// The member `key` of an object, if `m` is an object that has it.
pub open spec fn member(m: JsonModel, key: Seq<char>) -> Option<JsonModel> {
    match m {
        JsonModel::Object(fields) => if fields.contains_key(key) {
            Some(fields[key])
        } else {
            None
        },
        _ => None,
    }
}

/// The text of a JSON string, and nothing for any other value.
pub open spec fn text_of(m: JsonModel) -> Option<Seq<char>> {
    match m {
        JsonModel::String(s) => Some(s),
        _ => None,
    }
}

/// The number held by a JSON non-negative integer, and nothing for any other value.
pub open spec fn unsigned_of(m: JsonModel) -> Option<u64> {
    match m {
        JsonModel::Number(JsonNumber::PosInt(n)) => Some(n),
        _ => None,
    }
}

/// The items of a JSON array, and nothing for any other value.
pub open spec fn items_of(m: JsonModel) -> Option<Seq<JsonModel>> {
    match m {
        JsonModel::Array(items) => Some(items),
        _ => None,
    }
}

/// The string member `key` of an object.
pub open spec fn text_member(m: JsonModel, key: Seq<char>) -> Option<Seq<char>> {
    match member(m, key) {
        Some(x) => text_of(x),
        None => None,
    }
}

/// The array member `key` of an object.
pub open spec fn items_member(m: JsonModel, key: Seq<char>) -> Option<Seq<JsonModel>> {
    match member(m, key) {
        Some(x) => items_of(x),
        None => None,
    }
}

/// The object with the single member `key`, a string holding `text`.
pub open spec fn single_text_object(key: Seq<char>, text: Seq<char>) -> JsonModel {
    JsonModel::Object(Map::<Seq<char>, JsonModel>::empty().insert(key, JsonModel::String(text)))
}

/// The truth value held by a JSON boolean, and nothing for any other value.
pub open spec fn flag_of(m: JsonModel) -> Option<bool> {
    match m {
        JsonModel::Bool(b) => Some(b),
        _ => None,
    }
}

/// The number held by a JSON integer that fits in 64 signed bits, and nothing for
/// any other value.
pub open spec fn signed_of(m: JsonModel) -> Option<i64> {
    match m {
        JsonModel::Number(JsonNumber::PosInt(n)) => if n <= i64::MAX {
            Some(n as i64)
        } else {
            None
        },
        JsonModel::Number(JsonNumber::NegInt(n)) => Some(n),
        _ => None,
    }
}

/// A named member as the contracts see it.
pub open spec fn pair_model(pair: (String, serde_json::Value)) -> (Seq<char>, JsonModel) {
    (pair.0@, json_model(pair.1))
}

/// The members that a list of pairs makes, each pair in turn.
pub open spec fn members_of(pairs: Seq<(String, serde_json::Value)>) -> Map<Seq<char>, JsonModel>
    decreases pairs.len(),
{
    if pairs.len() == 0 {
        Map::<Seq<char>, JsonModel>::empty()
    } else {
        members_of(pairs.drop_last()).insert(pair_model(pairs.last()).0, pair_model(pairs.last()).1)
    }
}

/// No two pairs bear the same name.
pub open spec fn distinct_names(pairs: Seq<(String, serde_json::Value)>) -> bool {
    forall|i: int, j: int|
        0 <= i < j < pairs.len() ==> (#[trigger] pairs[i]).0@ != (#[trigger] pairs[j]).0@
}

/// Every pair's name is among the members that the pairs make.
pub proof fn lemma_members_hold_names(pairs: Seq<(String, serde_json::Value)>)
    ensures
        forall|i: int| 0 <= i < pairs.len() ==> members_of(pairs).contains_key((#[trigger] pairs[i]).0@),
    decreases pairs.len(),
{
    if pairs.len() > 0 {
        lemma_members_hold_names(pairs.drop_last());
        assert forall|i: int| 0 <= i < pairs.len() implies members_of(pairs).contains_key(
            (#[trigger] pairs[i]).0@,
        ) by {
            if i < pairs.len() - 1 {
                assert(pairs.drop_last()[i] == pairs[i]);
            }
        }
    }
}

/// `serde_json::from_str` at the type `Value`: reads a whole text as one JSON
/// value. The contract only names what comes back; it promises neither outcome.
#[verifier::external_body]
pub(crate) fn parse_json(text: &str) -> (r: Result<serde_json::Value, serde_json::Error>)
    ensures
        (match r {
            Ok(v) => json_parse(text@) == Ok::<JsonModel, Seq<char>>(json_model(v)),
            Err(e) => json_parse(text@) == Err::<JsonModel, Seq<char>>(json_error_text(e)),
        }),
{
    serde_json::from_str::<serde_json::Value>(text)
}

/// `to_string` on a `serde_json::Error`: the message that the error displays.
#[verifier::external_body]
pub(crate) fn error_text(e: &serde_json::Error) -> (s: String)
    ensures
        s@ == json_error_text(*e),
{
    e.to_string()
}

/// `serde_json::Value::get` with a string index: the member of that name when the
/// value is an object that has one, and nothing in every other case.
#[verifier::external_body]
pub(crate) fn value_get<'a>(v: &'a serde_json::Value, key: &str) -> (r: Option<
    &'a serde_json::Value,
>)
    ensures
        (match r {
            Some(x) => member(json_model(*v), key@) == Some(json_model(*x)),
            None => member(json_model(*v), key@) is None,
        }),
{
    v.get(key)
}

/// `serde_json::Value::as_str`: the text when the value is a string.
#[verifier::external_body]
pub(crate) fn value_as_str<'a>(v: &'a serde_json::Value) -> (r: Option<&'a str>)
    ensures
        (match r {
            Some(s) => text_of(json_model(*v)) == Some(s@),
            None => text_of(json_model(*v)) is None,
        }),
{
    v.as_str()
}

/// `serde_json::Value::as_u64`: the number when the value is a non-negative
/// integer; nothing for a negative or fractional number or any other value.
#[verifier::external_body]
pub(crate) fn value_as_u64(v: &serde_json::Value) -> (r: Option<u64>)
    ensures
        r == unsigned_of(json_model(*v)),
{
    v.as_u64()
}

/// `serde_json::Value::as_array`: the items, in order, when the value is an array.
#[verifier::external_body]
pub(crate) fn value_as_array<'a>(v: &'a serde_json::Value) -> (r: Option<
    &'a Vec<serde_json::Value>,
>)
    ensures
        (match r {
            Some(a) => items_of(json_model(*v)) == Some(models_of(a@)),
            None => items_of(json_model(*v)) is None,
        }),
{
    v.as_array()
}

/// `serde_json::to_string_pretty` on a value: the indented JSON text. The
/// contract only names what comes back.
#[verifier::external_body]
pub(crate) fn pretty_json(v: &serde_json::Value) -> (r: Result<String, serde_json::Error>)
    ensures
        (match r {
            Ok(s) => json_pretty(json_model(*v)) == Some(s@),
            Err(_) => json_pretty(json_model(*v)) is None,
        }),
{
    serde_json::to_string_pretty(v)
}

/// `serde_json::Value::as_bool`: the truth value when the value is a boolean.
#[verifier::external_body]
pub(crate) fn value_as_bool(v: &serde_json::Value) -> (r: Option<bool>)
    ensures
        r == flag_of(json_model(*v)),
{
    v.as_bool()
}

/// `serde_json::Value::as_i64`: the number when the value is an integer that fits
/// in 64 signed bits; nothing for a larger or fractional number or any other value.
#[verifier::external_body]
pub(crate) fn value_as_i64(v: &serde_json::Value) -> (r: Option<i64>)
    ensures
        r == signed_of(json_model(*v)),
{
    v.as_i64()
}

/// `Value::from` on a string slice: the JSON string with that text.
#[verifier::external_body]
pub(crate) fn value_from_text(text: &str) -> (v: serde_json::Value)
    ensures
        json_model(v) == JsonModel::String(text@),
{
    serde_json::Value::from(text)
}

/// `Value::from` on a `u32`: the JSON non-negative integer of that value.
#[verifier::external_body]
pub(crate) fn value_from_number(n: u32) -> (v: serde_json::Value)
    ensures
        json_model(v) == JsonModel::Number(JsonNumber::PosInt(n as u64)),
{
    serde_json::Value::from(n)
}

/// `Value::from` on a vector of values: the JSON array of these items, in order.
#[verifier::external_body]
pub(crate) fn value_from_items(items: Vec<serde_json::Value>) -> (v: serde_json::Value)
    ensures
        json_model(v) == JsonModel::Array(models_of(items@)),
{
    serde_json::Value::from(items)
}

/// `Value::from_iter` over named values, no two of the same name: the JSON
/// object with exactly these members.
#[verifier::external_body]
pub(crate) fn value_from_pairs(pairs: Vec<(String, serde_json::Value)>) -> (v: serde_json::Value)
    requires
        distinct_names(pairs@),
    ensures
        json_model(v) == JsonModel::Object(members_of(pairs@)),
{
    serde_json::Value::from_iter(pairs)
}

/// `clone` on a `serde_json::Value`: a value with the same content.
#[verifier::external_body]
pub(crate) fn clone_value(v: &serde_json::Value) -> (r: serde_json::Value)
    ensures
        json_model(r) == json_model(*v),
{
    v.clone()
}

/// Adds a member under a name that is not taken yet.
pub(crate) fn add_member(
    members: &mut Vec<(String, serde_json::Value)>,
    key: &str,
    value: serde_json::Value,
)
    requires
        distinct_names(old(members)@),
        !members_of(old(members)@).contains_key(key@),
    ensures
        distinct_names(final(members)@),
        members_of(final(members)@) == members_of(old(members)@).insert(key@, json_model(value)),
{
    proof {
        lemma_members_hold_names(old(members)@);
    }
    members.push((String::from_str(key), value));
    assert(members@.drop_last() =~= old(members)@);
    assert forall|i: int, j: int| 0 <= i < j < members@.len() implies (#[trigger] members@[i]).0@
        != (#[trigger] members@[j]).0@ by {
        if j < members@.len() - 1 {
            assert(members@[i] == old(members)@[i]);
            assert(members@[j] == old(members)@[j]);
        } else {
            assert(members@[i] == old(members)@[i]);
        }
    }
}

/// Starts a list of members.
pub(crate) fn no_members() -> (members: Vec<(String, serde_json::Value)>)
    ensures
        distinct_names(members@),
        members_of(members@) == Map::<Seq<char>, JsonModel>::empty(),
{
    let members: Vec<(String, serde_json::Value)> = Vec::new();
    assert(members_of(members@) =~= Map::<Seq<char>, JsonModel>::empty());
    members
}

/// Reads the string member `key` of `v`.
pub fn get_text<'a>(v: &'a serde_json::Value, key: &str) -> (r: Option<&'a str>)
    ensures
        (match r {
            Some(s) => text_member(json_model(*v), key@) == Some(s@),
            None => text_member(json_model(*v), key@) is None,
        }),
{
    match value_get(v, key) {
        Some(x) => value_as_str(x),
        None => None,
    }
}

/// Reads the array member `key` of `v`.
pub fn get_items<'a>(v: &'a serde_json::Value, key: &str) -> (r: Option<
    &'a Vec<serde_json::Value>,
>)
    ensures
        (match r {
            Some(a) => items_member(json_model(*v), key@) == Some(models_of(a@)),
            None => items_member(json_model(*v), key@) is None,
        }),
{
    match value_get(v, key) {
        Some(x) => value_as_array(x),
        None => None,
    }
}

} // verus!
