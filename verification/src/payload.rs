//! Reading a JSON payload: members with their defaults, the provider a payload
//! names, and lists of texts.

use vstd::prelude::*;
use vstd::string::StringExecFns;
use crate::errors::{AppError, AppErrorView};
use crate::json::{
    add_member, distinct_names, flag_of, get_text, json_model, JsonModel, JsonNumber, member,
    members_of, text_member, unsigned_of, value_as_bool, value_as_u64, value_from_number,
    value_from_text, value_get,
};
use crate::prompts::optional_text;
use crate::text::texts_view;
use crate::types::{AIActionResponse, AIProvider};

verus! {

/// The provider that a name stands for: Groq for `groq`, Gemini for anything
/// else and for no name at all.
pub open spec fn named_provider(name: Option<Seq<char>>) -> AIProvider {
    if name == Some("groq"@) {
        AIProvider::Groq
    } else {
        AIProvider::Gemini
    }
}

/// The name under which a provider is stored.
pub open spec fn provider_label_text(provider: AIProvider) -> Seq<char> {
    match provider {
        AIProvider::Gemini => "gemini"@,
        AIProvider::Groq => "groq"@,
    }
}

/// The boolean member `key` of a payload, or `default` where it has none.
pub open spec fn flag_member_or(payload: JsonModel, key: Seq<char>, default: bool) -> bool {
    match member(payload, key) {
        Some(x) => match flag_of(x) {
            Some(b) => b,
            None => default,
        },
        None => default,
    }
}

/// The numeric member `key` of a payload, cut to 32 bits, or `default` where it
/// has no non-negative integer of that name.
pub open spec fn number_member_or(payload: JsonModel, key: Seq<char>, default: u32) -> u32 {
    match member(payload, key) {
        Some(x) => match unsigned_of(x) {
            Some(n) => (n % 0x1_0000_0000) as u32,
            None => default,
        },
        None => default,
    }
}

/// The string member `key` of a payload, or `default` where it has none.
pub open spec fn text_member_or(payload: JsonModel, key: Seq<char>, default: Seq<char>) -> Seq<
    char,
> {
    match text_member(payload, key) {
        Some(t) => t,
        None => default,
    }
}

/// The items with `separator` between each two of them.
pub open spec fn joined(items: Seq<Seq<char>>, separator: Seq<char>) -> Seq<char>
    decreases items.len(),
{
    if items.len() == 0 {
        Seq::<char>::empty()
    } else if items.len() == 1 {
        items[0]
    } else {
        joined(items.drop_last(), separator) + separator + items.last()
    }
}

/// Tells which provider a name stands for.
pub fn provider_from_name(name: Option<&str>) -> (p: AIProvider)
    ensures
        p == named_provider(optional_text(name)),
{
    match name {
        Some(n) => {
            if String::from_str(n) == String::from_str("groq") {
                AIProvider::Groq
            } else {
                AIProvider::Gemini
            }
        },
        None => AIProvider::Gemini,
    }
}

/// The name under which a provider is stored.
pub fn provider_label(provider: AIProvider) -> (label: &'static str)
    ensures
        label@ == provider_label_text(provider),
{
    match provider {
        AIProvider::Gemini => "gemini",
        AIProvider::Groq => "groq",
    }
}

/// Reads the provider that a payload names under `provider`.
pub fn payload_provider(payload: &serde_json::Value) -> (p: AIProvider)
    ensures
        p == named_provider(text_member(json_model(*payload), "provider"@)),
{
    let name = get_text(payload, "provider");
    provider_from_name(name)
}

/// Reads a boolean member of a payload.
pub fn payload_flag(payload: &serde_json::Value, key: &str, default: bool) -> (b: bool)
    ensures
        b == flag_member_or(json_model(*payload), key@, default),
{
    match value_get(payload, key) {
        Some(x) => match value_as_bool(x) {
            Some(b) => b,
            None => default,
        },
        None => default,
    }
}

/// Reads a numeric member of a payload, keeping its low 32 bits.
pub fn payload_number(payload: &serde_json::Value, key: &str, default: u32) -> (n: u32)
    ensures
        n == number_member_or(json_model(*payload), key@, default),
{
    match value_get(payload, key) {
        Some(x) => match value_as_u64(x) {
            Some(n) => (n % 0x1_0000_0000) as u32,
            None => default,
        },
        None => default,
    }
}

/// Reads a string member of a payload that must be there: a payload without it is
/// refused as a validation error with the given complaint.
pub fn required_text<'a>(payload: &'a serde_json::Value, key: &str, complaint: &str) -> (r: Result<
    &'a str,
    AppError,
>)
    ensures
        (match r {
            Ok(t) => text_member(json_model(*payload), key@) == Some(t@),
            Err(e) => text_member(json_model(*payload), key@) is None && e@
                == AppErrorView::ValidationError(complaint@),
        }),
{
    match get_text(payload, key) {
        Some(t) => Ok(t),
        None => Err(AppError::ValidationError(String::from_str(complaint))),
    }
}

/// Writes the items with `separator` between each two of them.
pub fn join_texts(items: &Vec<String>, separator: &str) -> (s: String)
    ensures
        s@ == joined(texts_view(items@), separator@),
{
    let ghost texts = texts_view(items@);
    let mut s = String::new();
    let mut i: usize = 0;
    while i < items.len()
        invariant
            i <= items.len(),
            texts == texts_view(items@),
            s@ == joined(texts.take(i as int), separator@),
        decreases items.len() - i,
    {
        proof {
            let next = texts.take(i + 1);
            assert(next.drop_last() =~= texts.take(i as int));
            assert(next.last() == items@[i as int]@);
            if i == 0 {
                assert(s@ + items@[0]@ =~= items@[0]@);
            }
        }
        if i > 0 {
            s.append(separator);
        }
        s.append(items[i].as_str());
        i += 1;
    }
    assert(texts.take(i as int) =~= texts);
    s
}

/// Passes a successful answer and turns a failed one into an external-service
/// failure that carries the answer's message, or `fallback` where it has none.
pub fn require_success(response: &AIActionResponse, fallback: &str) -> (r: Result<(), AppError>)
    ensures
        (match r {
            Ok(_) => response.success,
            Err(e) => !response.success && e@ == AppErrorView::ExternalServiceError(
                match response@.message {
                    Some(m) => m,
                    None => fallback@,
                },
            ),
        }),
{
    if response.success {
        Ok(())
    } else {
        match &response.message {
            Some(m) => Err(AppError::ExternalServiceError(m.clone())),
            None => Err(AppError::ExternalServiceError(String::from_str(fallback))),
        }
    }
}

/// Adds a string member under a name that is not taken yet.
pub(crate) fn put_text(members: &mut Vec<(String, serde_json::Value)>, key: &str, text: &str)
    requires
        distinct_names(old(members)@),
        !members_of(old(members)@).contains_key(key@),
    ensures
        distinct_names(final(members)@),
        members_of(final(members)@) == members_of(old(members)@).insert(
            key@,
            JsonModel::String(text@),
        ),
{
    add_member(members, key, value_from_text(text));
}

/// Adds a numeric member under a name that is not taken yet.
pub(crate) fn put_number(members: &mut Vec<(String, serde_json::Value)>, key: &str, n: u32)
    requires
        distinct_names(old(members)@),
        !members_of(old(members)@).contains_key(key@),
    ensures
        distinct_names(final(members)@),
        members_of(final(members)@) == members_of(old(members)@).insert(
            key@,
            JsonModel::Number(JsonNumber::PosInt(n as u64)),
        ),
{
    add_member(members, key, value_from_number(n));
}

} // verus!
