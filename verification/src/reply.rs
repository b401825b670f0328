//! Reading a provider's reply: which replies count as an answer, where the
//! completion stands in the body, and the message of each failure.

use vstd::prelude::*;
use vstd::string::StringExecFns;
use crate::errors::{AppError, AppErrorView};
use crate::http::{
    HttpReply, HttpReplyView, is_success, show_status, status_is_success, status_line,
};
use crate::json::{
    error_text, get_items, get_text, items_member, json_model, json_parse, JsonModel, member,
    models_of, parse_json, text_member, value_get,
};
use crate::text::{contains_text, decimal, lemma_contains_middle, texts_view};
use crate::types::AIProvider;

verus! {

/// What is said of a body that is JSON but not in the provider's shape.
pub const UNEXPECTED_SHAPE: &'static str = "the body does not have the expected shape";

/// The name by which messages call a provider.
pub open spec fn provider_name(provider: AIProvider) -> Seq<char> {
    match provider {
        AIProvider::Gemini => "Gemini"@,
        AIProvider::Groq => "Groq"@,
    }
}

/// The message for a call that did not complete.
pub open spec fn transport_failure_text(provider: AIProvider, error: Seq<char>) -> Seq<char> {
    provider_name(provider) + " API error: "@ + error
}

/// The message for an answer whose status does not report success.
pub open spec fn rejection_text(provider: AIProvider, status: u16, body: Seq<char>) -> Seq<char> {
    provider_name(provider) + " API returned "@ + status_line(status) + ": "@ + body
}

/// The message for an answer that cannot be read as the provider's envelope.
pub open spec fn undecodable_text(provider: AIProvider, error: Seq<char>) -> Seq<char> {
    "Failed to parse "@ + provider_name(provider) + " response: "@ + error
}

/// The message for an envelope without a completion.
pub open spec fn no_completion_text(provider: AIProvider) -> Seq<char> {
    "No response from "@ + provider_name(provider)
}

/// The string members `key` of all `items`, if each item is an object that has one.
pub open spec fn texts_of_all(items: Seq<JsonModel>, key: Seq<char>) -> Option<Seq<Seq<char>>> {
    if forall|i: int| 0 <= i < items.len() ==> (#[trigger] text_member(items[i], key)) is Some {
        Some(Seq::new(items.len(), |i: int| text_member(items[i], key).unwrap()))
    } else {
        None
    }
}

/// The texts of the parts of a Gemini candidate: `content.parts[..].text`.
pub open spec fn candidate_parts(candidate: JsonModel) -> Option<Seq<Seq<char>>> {
    match member(candidate, "content"@) {
        Some(content) => match items_member(content, "parts"@) {
            Some(parts) => texts_of_all(parts, "text"@),
            None => None,
        },
        None => None,
    }
}

/// A Gemini envelope read in full: for each of `candidates`, the texts of its
/// parts. `None` where any piece is missing or of another kind.
pub open spec fn gemini_candidates(body: JsonModel) -> Option<Seq<Seq<Seq<char>>>> {
    match items_member(body, "candidates"@) {
        Some(candidates) => if forall|i: int|
            0 <= i < candidates.len() ==> (#[trigger] candidate_parts(candidates[i])) is Some {
            Some(Seq::new(candidates.len(), |i: int| candidate_parts(candidates[i]).unwrap()))
        } else {
            None
        },
        None => None,
    }
}

/// The text of a Groq choice: `message.content`.
pub open spec fn choice_text(choice: JsonModel) -> Option<Seq<char>> {
    match member(choice, "message"@) {
        Some(message) => text_member(message, "content"@),
        None => None,
    }
}

/// A Groq envelope read in full: the text of each of `choices`. `None` where any
/// piece is missing or of another kind.
pub open spec fn groq_choices(body: JsonModel) -> Option<Seq<Seq<char>>> {
    match items_member(body, "choices"@) {
        Some(choices) => if forall|i: int|
            0 <= i < choices.len() ==> (#[trigger] choice_text(choices[i])) is Some {
            Some(Seq::new(choices.len(), |i: int| choice_text(choices[i]).unwrap()))
        } else {
            None
        },
        None => None,
    }
}

/// What an envelope yields.
pub ghost enum Completion {
    /// The body is not in the provider's shape.
    Misshapen,
    /// The envelope is well shaped and holds no completion.
    Missing,
    /// The first completion's text.
    Text(Seq<char>),
}

/// The first completion of a provider's envelope: for Gemini the first part of
/// the first candidate, for Groq the first choice.
pub open spec fn first_completion(provider: AIProvider, body: JsonModel) -> Completion {
    match provider {
        AIProvider::Gemini => match gemini_candidates(body) {
            Some(candidates) => if candidates.len() > 0 && candidates[0].len() > 0 {
                Completion::Text(candidates[0][0])
            } else {
                Completion::Missing
            },
            None => Completion::Misshapen,
        },
        AIProvider::Groq => match groq_choices(body) {
            Some(choices) => if choices.len() > 0 {
                Completion::Text(choices[0])
            } else {
                Completion::Missing
            },
            None => Completion::Misshapen,
        },
    }
}

/// What a body that was read as JSON yields: the completion's text, or the
/// failure that stands for what is wrong with it.
pub open spec fn envelope_outcome(provider: AIProvider, parsed: Result<JsonModel, Seq<char>>) -> Result<
    Seq<char>,
    AppErrorView,
> {
    match parsed {
        Ok(body) => match first_completion(provider, body) {
            Completion::Text(t) => Ok(t),
            Completion::Missing => Err(
                AppErrorView::ExternalServiceError(no_completion_text(provider)),
            ),
            Completion::Misshapen => Err(
                AppErrorView::ExternalServiceError(undecodable_text(provider, UNEXPECTED_SHAPE@)),
            ),
        },
        Err(e) => Err(AppErrorView::ExternalServiceError(undecodable_text(provider, e))),
    }
}

/// What a reply yields: the first completion's text, unparsed, or an
/// external-service failure with its message.
pub open spec fn reply_outcome(provider: AIProvider, reply: HttpReplyView) -> Result<
    Seq<char>,
    AppErrorView,
> {
    match reply {
        HttpReplyView::Failed(error) => Err(
            AppErrorView::ExternalServiceError(transport_failure_text(provider, error)),
        ),
        HttpReplyView::Answered { status, body } => if is_success(status) {
            envelope_outcome(provider, json_parse(body))
        } else {
            Err(AppErrorView::ExternalServiceError(rejection_text(provider, status, body)))
        },
        HttpReplyView::Unreadable { status, error } => if is_success(status) {
            Err(AppErrorView::ExternalServiceError(undecodable_text(provider, error)))
        } else {
            Err(
                AppErrorView::ExternalServiceError(
                    rejection_text(provider, status, Seq::<char>::empty()),
                ),
            )
        },
    }
}

/// The outcome of a reply as a view of the executable result.
pub open spec fn outcome_view(r: Result<String, AppError>) -> Result<Seq<char>, AppErrorView> {
    match r {
        Ok(t) => Ok(t@),
        Err(e) => Err(e@),
    }
}

/// The texts of a list of lists of strings.
pub open spec fn nested_texts_view(lists: Seq<Vec<String>>) -> Seq<Seq<Seq<char>>> {
    lists.map_values(|l: Vec<String>| texts_view(l@))
}

/// The texts of an optional list of strings.
pub open spec fn optional_texts_view(texts: Option<Vec<String>>) -> Option<Seq<Seq<char>>> {
    match texts {
        Some(t) => Some(texts_view(t@)),
        None => None,
    }
}

/// The name by which messages call a provider.
pub fn name_of(provider: AIProvider) -> (name: &'static str)
    ensures
        name@ == provider_name(provider),
{
    match provider {
        AIProvider::Gemini => "Gemini",
        AIProvider::Groq => "Groq",
    }
}

fn transport_failure(provider: AIProvider, error: &str) -> (e: AppError)
    ensures
        e@ == AppErrorView::ExternalServiceError(transport_failure_text(provider, error@)),
{
    let mut m = String::from_str(name_of(provider));
    m.append(" API error: ");
    m.append(error);
    AppError::ExternalServiceError(m)
}

fn undecodable(provider: AIProvider, error: &str) -> (e: AppError)
    ensures
        e@ == AppErrorView::ExternalServiceError(undecodable_text(provider, error@)),
{
    let mut m = String::from_str("Failed to parse ");
    m.append(name_of(provider));
    m.append(" response: ");
    m.append(error);
    AppError::ExternalServiceError(m)
}

fn no_completion(provider: AIProvider) -> (e: AppError)
    ensures
        e@ == AppErrorView::ExternalServiceError(no_completion_text(provider)),
{
    let mut m = String::from_str("No response from ");
    m.append(name_of(provider));
    AppError::ExternalServiceError(m)
}

fn rejection(provider: AIProvider, status: u16, body: &str) -> (e: AppError)
    ensures
        e@ == AppErrorView::ExternalServiceError(rejection_text(provider, status, body@)),
{
    let mut m = String::from_str(name_of(provider));
    m.append(" API returned ");
    let shown = show_status(status);
    m.append(shown.as_str());
    m.append(": ");
    m.append(body);
    AppError::ExternalServiceError(m)
}

/// Collects the string member `key` of every item, or nothing if an item lacks it.
pub fn collect_texts(items: &Vec<serde_json::Value>, key: &str) -> (r: Option<Vec<String>>)
    ensures
        optional_texts_view(r) == texts_of_all(models_of(items@), key@),
{
    let ghost models = models_of(items@);
    let mut texts: Vec<String> = Vec::new();
    let mut i: usize = 0;
    while i < items.len()
        invariant
            i <= items.len(),
            models == models_of(items@),
            texts@.len() == i,
            forall|j: int|
                0 <= j < i ==> (#[trigger] text_member(models[j], key@)) == Some(texts@[j]@),
        decreases items.len() - i,
    {
        assert(models[i as int] == json_model(items@[i as int]));
        match get_text(&items[i], key) {
            Some(t) => {
                texts.push(t.to_owned());
            },
            None => {
                assert(text_member(models[i as int], key@) is None);
                return None;
            },
        }
        i += 1;
    }
    proof {
        let expected = Seq::new(models.len(), |i: int| text_member(models[i], key@).unwrap());
        assert(texts_view(texts@) =~= expected);
    }
    Some(texts)
}

/// Reads the texts of the parts of one Gemini candidate.
pub fn read_candidate(candidate: &serde_json::Value) -> (r: Option<Vec<String>>)
    ensures
        optional_texts_view(r) == candidate_parts(json_model(*candidate)),
{
    match value_get(candidate, "content") {
        Some(content) => match get_items(content, "parts") {
            Some(parts) => collect_texts(parts, "text"),
            None => None,
        },
        None => None,
    }
}

/// Reads a Gemini envelope in full.
pub fn read_candidates(body: &serde_json::Value) -> (r: Option<Vec<Vec<String>>>)
    ensures
        (match r {
            Some(c) => gemini_candidates(json_model(*body)) == Some(nested_texts_view(c@)),
            None => gemini_candidates(json_model(*body)) is None,
        }),
{
    let items = match get_items(body, "candidates") {
        Some(items) => items,
        None => { return None; },
    };
    let ghost models = models_of(items@);
    let mut candidates: Vec<Vec<String>> = Vec::new();
    let mut i: usize = 0;
    while i < items.len()
        invariant
            i <= items.len(),
            models == models_of(items@),
            items_member(json_model(*body), "candidates"@) == Some(models),
            candidates@.len() == i,
            forall|j: int|
                0 <= j < i ==> (#[trigger] candidate_parts(models[j])) == Some(
                    texts_view(candidates@[j]@),
                ),
        decreases items.len() - i,
    {
        assert(models[i as int] == json_model(items@[i as int]));
        match read_candidate(&items[i]) {
            Some(parts) => {
                candidates.push(parts);
            },
            None => {
                assert(candidate_parts(models[i as int]) is None);
                return None;
            },
        }
        i += 1;
    }
    proof {
        let expected = Seq::new(models.len(), |i: int| candidate_parts(models[i]).unwrap());
        assert(nested_texts_view(candidates@) =~= expected);
    }
    Some(candidates)
}

/// Reads the text of one Groq choice.
pub fn read_choice<'a>(choice: &'a serde_json::Value) -> (r: Option<&'a str>)
    ensures
        (match r {
            Some(t) => choice_text(json_model(*choice)) == Some(t@),
            None => choice_text(json_model(*choice)) is None,
        }),
{
    match value_get(choice, "message") {
        Some(message) => get_text(message, "content"),
        None => None,
    }
}

/// Reads a Groq envelope in full.
pub fn read_choices(body: &serde_json::Value) -> (r: Option<Vec<String>>)
    ensures
        optional_texts_view(r) == groq_choices(json_model(*body)),
{
    let items = match get_items(body, "choices") {
        Some(items) => items,
        None => { return None; },
    };
    let ghost models = models_of(items@);
    let mut choices: Vec<String> = Vec::new();
    let mut i: usize = 0;
    while i < items.len()
        invariant
            i <= items.len(),
            models == models_of(items@),
            items_member(json_model(*body), "choices"@) == Some(models),
            choices@.len() == i,
            forall|j: int|
                0 <= j < i ==> (#[trigger] choice_text(models[j])) == Some(choices@[j]@),
        decreases items.len() - i,
    {
        assert(models[i as int] == json_model(items@[i as int]));
        match read_choice(&items[i]) {
            Some(t) => {
                choices.push(t.to_owned());
            },
            None => {
                assert(choice_text(models[i as int]) is None);
                return None;
            },
        }
        i += 1;
    }
    proof {
        let expected = Seq::new(models.len(), |i: int| choice_text(models[i]).unwrap());
        assert(texts_view(choices@) =~= expected);
    }
    Some(choices)
}

/// Takes the first completion out of a body that was read as JSON.
pub fn read_envelope(provider: AIProvider, parsed: Result<serde_json::Value, String>) -> (r:
    Result<String, AppError>)
    ensures
        outcome_view(r) == envelope_outcome(
            provider,
            match parsed {
                Ok(body) => Ok(json_model(body)),
                Err(e) => Err(e@),
            },
        ),
{
    let body = match parsed {
        Ok(body) => body,
        Err(e) => {
            return Err(undecodable(provider, e.as_str()));
        },
    };
    let first: Option<Option<String>> = match provider {
        AIProvider::Gemini => match read_candidates(&body) {
            Some(candidates) => {
                if candidates.len() > 0 && candidates[0].len() > 0 {
                    assert(nested_texts_view(candidates@)[0] == texts_view(candidates@[0]@));
                    assert(texts_view(candidates@[0]@)[0] == candidates@[0]@[0]@);
                    Some(Some(candidates[0][0].clone()))
                } else {
                    Some(None)
                }
            },
            None => None,
        },
        AIProvider::Groq => match read_choices(&body) {
            Some(choices) => {
                if choices.len() > 0 {
                    assert(texts_view(choices@)[0] == choices@[0]@);
                    Some(Some(choices[0].clone()))
                } else {
                    Some(None)
                }
            },
            None => None,
        },
    };
    match first {
        Some(Some(t)) => Ok(t),
        Some(None) => Err(no_completion(provider)),
        None => Err(undecodable(provider, UNEXPECTED_SHAPE)),
    }
}

/// Reads a provider's reply: the first completion's text where the status reports
/// success and the body is the provider's envelope with a completion in it, and
/// otherwise an external-service failure that says what went wrong.
pub fn read_reply(provider: AIProvider, reply: &HttpReply) -> (r: Result<String, AppError>)
    ensures
        outcome_view(r) == reply_outcome(provider, reply@),
{
    match reply {
        HttpReply::Failed(error) => Err(transport_failure(provider, error.as_str())),
        HttpReply::Answered { status, body } => {
            if status_is_success(*status) {
                let parsed = match parse_json(body.as_str()) {
                    Ok(v) => Ok(v),
                    Err(e) => Err(error_text(&e)),
                };
                read_envelope(provider, parsed)
            } else {
                Err(rejection(provider, *status, body.as_str()))
            }
        },
        HttpReply::Unreadable { status, error } => {
            if status_is_success(*status) {
                Err(undecodable(provider, error.as_str()))
            } else {
                proof {
                    reveal_strlit("");
                    assert(""@ =~= Seq::<char>::empty());
                }
                Err(rejection(provider, *status, ""))
            }
        },
    }
}

/// The status of a reply that was refused: the status of an answer that does not
/// report success.
pub open spec fn refused_status(reply: HttpReplyView) -> Option<u16> {
    match reply {
        HttpReplyView::Failed(_) => None,
        HttpReplyView::Answered { status, .. } => if is_success(status) {
            None
        } else {
            Some(status)
        },
        HttpReplyView::Unreadable { status, .. } => if is_success(status) {
            None
        } else {
            Some(status)
        },
    }
}

/// A reply whose status does not report success becomes an external-service
/// failure whose message contains the status code in decimal.
pub proof fn lemma_rejection_names_status(provider: AIProvider, reply: HttpReplyView)
    requires
        refused_status(reply) is Some,
    ensures
        reply_outcome(provider, reply) is Err,
        reply_outcome(provider, reply)->Err_0 is ExternalServiceError,
        contains_text(
            reply_outcome(provider, reply)->Err_0.message(),
            decimal(refused_status(reply)->Some_0 as nat),
        ),
{
    match reply {
        HttpReplyView::Failed(_) => {},
        HttpReplyView::Answered { status, body } => {
            lemma_rejection_text_names_status(provider, status, body);
        },
        HttpReplyView::Unreadable { status, error } => {
            lemma_rejection_text_names_status(provider, status, Seq::<char>::empty());
        },
    }
}

/// The message for a refused call contains the status code in decimal.
pub proof fn lemma_rejection_text_names_status(provider: AIProvider, status: u16, body: Seq<char>)
    ensures
        contains_text(rejection_text(provider, status, body), decimal(status as nat)),
{
    let before = provider_name(provider) + " API returned "@;
    let number = decimal(status as nat);
    let rest = status_line(status).subrange(number.len() as int, status_line(status).len() as int);
    let after = rest + ": "@ + body;
    assert(status_line(status) =~= number + rest);
    assert(rejection_text(provider, status, body) =~= before + number + after);
    lemma_contains_middle(before, number, after);
}

} // verus!
