//! The skill-extraction endpoint: what it reads, what it asks, and how the
//! answer is merged into the user's record.

use vstd::prelude::*;
use vstd::string::StringExecFns;
use crate::errors::{AppError, AppErrorView};
use crate::json::{
    get_items, get_text, items_member, json_model, JsonModel, models_of, text_member, text_of,
    value_as_str,
};
use crate::payload::{flag_member_or, named_provider, payload_flag, payload_provider, required_text};
use crate::text::texts_view;
use crate::types::{ActionType, AIActionRequest, AIActionRequestView, AIProvider};

verus! {

/// What the skill-extraction endpoint reads from its payload.
#[derive(Debug)]
pub struct SkillsPayload {
    pub cv_text: String,
    pub provider: AIProvider,
    pub update_profile: bool,
}

/// A [`SkillsPayload`] as the contracts see it.
pub ghost struct SkillsPayloadView {
    pub cv_text: Seq<char>,
    pub provider: AIProvider,
    pub update_profile: bool,
}

impl View for SkillsPayload {
    type V = SkillsPayloadView;

    open spec fn view(&self) -> SkillsPayloadView {
        SkillsPayloadView {
            cv_text: self.cv_text@,
            provider: self.provider,
            update_profile: self.update_profile,
        }
    }
}

/// How the skill-extraction payload is read: `cv_text` must be a string, the
/// provider is Gemini unless `groq` is named, and the profile is left alone
/// unless `update_profile` says otherwise.
pub open spec fn skills_payload(payload: JsonModel) -> Result<SkillsPayloadView, AppErrorView> {
    match text_member(payload, "cv_text"@) {
        Some(cv_text) => Ok(
            SkillsPayloadView {
                cv_text,
                provider: named_provider(text_member(payload, "provider"@)),
                update_profile: flag_member_or(payload, "update_profile"@, false),
            },
        ),
        None => Err(AppErrorView::ValidationError("cv_text is required"@)),
    }
}

/// Reads the payload of the skill-extraction endpoint.
pub fn read_skills_payload(payload: &serde_json::Value) -> (r: Result<SkillsPayload, AppError>)
    ensures
        (match r {
            Ok(p) => skills_payload(json_model(*payload)) == Ok::<SkillsPayloadView, AppErrorView>(
                p@,
            ),
            Err(e) => skills_payload(json_model(*payload)) == Err::<
                SkillsPayloadView,
                AppErrorView,
            >(e@),
        }),
{
    let cv_text = match required_text(payload, "cv_text", "cv_text is required") {
        Ok(t) => t,
        Err(e) => { return Err(e); },
    };
    Ok(
        SkillsPayload {
            cv_text: String::from_str(cv_text),
            provider: payload_provider(payload),
            update_profile: payload_flag(payload, "update_profile", false),
        },
    )
}

/// The request that asks for the skills in a CV.
pub fn skills_request(cv_text: &str, provider: AIProvider) -> (request: AIActionRequest)
    ensures
        request@ == (AIActionRequestView {
            action: ActionType::ExtractSkills,
            provider,
            input: cv_text@,
            parameters: None,
        }),
{
    AIActionRequest {
        action: ActionType::ExtractSkills,
        provider,
        input: String::from_str(cv_text),
        parameters: None,
    }
}

/// The name that an item of a list stands for. With `by_name`, an object's string
/// member `name` counts first; in any case a plain string counts as itself.
pub open spec fn item_name(item: JsonModel, by_name: bool) -> Option<Seq<char>> {
    if by_name && text_member(item, "name"@) is Some {
        text_member(item, "name"@)
    } else {
        text_of(item)
    }
}

/// The names of the items that stand for one, in order.
pub open spec fn names_of(items: Seq<JsonModel>, by_name: bool) -> Seq<Seq<char>>
    decreases items.len(),
{
    if items.len() == 0 {
        Seq::<Seq<char>>::empty()
    } else {
        match item_name(items.last(), by_name) {
            Some(n) => names_of(items.drop_last(), by_name).push(n),
            None => names_of(items.drop_last(), by_name),
        }
    }
}

/// The names in the array member `key` of an answer; none where there is no
/// such array.
pub open spec fn listed_names(data: JsonModel, key: Seq<char>, by_name: bool) -> Seq<Seq<char>> {
    match items_member(data, key) {
        Some(items) => names_of(items, by_name),
        None => Seq::<Seq<char>>::empty(),
    }
}

/// Collects the names in the array member `key` of an answer.
pub fn collect_names(data: &serde_json::Value, key: &str, by_name: bool) -> (names: Vec<String>)
    ensures
        texts_view(names@) == listed_names(json_model(*data), key@, by_name),
{
    let mut names: Vec<String> = Vec::new();
    let items = match get_items(data, key) {
        Some(items) => items,
        None => {
            assert(texts_view(names@) =~= Seq::<Seq<char>>::empty());
            return names;
        },
    };
    let ghost models = models_of(items@);
    let mut i: usize = 0;
    assert(texts_view(names@) =~= names_of(models.take(0), by_name));
    while i < items.len()
        invariant
            i <= items.len(),
            models == models_of(items@),
            texts_view(names@) == names_of(models.take(i as int), by_name),
        decreases items.len() - i,
    {
        proof {
            let next = models.take(i + 1);
            assert(next.drop_last() =~= models.take(i as int));
            assert(next.last() == json_model(items@[i as int]));
        }
        let ghost before = names@;
        let item = &items[i];
        let named = if by_name {
            get_text(item, "name")
        } else {
            None
        };
        let name = match named {
            Some(n) => Some(n),
            None => value_as_str(item),
        };
        match name {
            Some(n) => {
                names.push(String::from_str(n));
                assert(texts_view(names@) =~= texts_view(before).push(n@));
            },
            None => {},
        }
        i += 1;
    }
    assert(models.take(i as int) =~= models);
    names
}

/// The technical skills that an answer names: each item of `technical_skills`
/// that is an object with a `name` or a plain string.
pub fn technical_skill_names(data: &serde_json::Value) -> (names: Vec<String>)
    ensures
        texts_view(names@) == listed_names(json_model(*data), "technical_skills"@, true),
{
    collect_names(data, "technical_skills", true)
}

/// The roles that an answer names: each string of `roles`.
pub fn role_names(data: &serde_json::Value) -> (names: Vec<String>)
    ensures
        texts_view(names@) == listed_names(json_model(*data), "roles"@, false),
{
    collect_names(data, "roles", false)
}

/// `existing` with each of `additions` appended that is not there by then.
pub open spec fn merged(existing: Seq<Seq<char>>, additions: Seq<Seq<char>>) -> Seq<Seq<char>>
    decreases additions.len(),
{
    if additions.len() == 0 {
        existing
    } else {
        let before = merged(existing, additions.drop_last());
        if before.contains(additions.last()) {
            before
        } else {
            before.push(additions.last())
        }
    }
}

/// Whether a text is in a list.
pub fn has_text(list: &Vec<String>, text: &String) -> (b: bool)
    ensures
        b == texts_view(list@).contains(text@),
{
    let mut i: usize = 0;
    while i < list.len()
        invariant
            i <= list.len(),
            forall|j: int| 0 <= j < i ==> (#[trigger] texts_view(list@)[j]) != text@,
        decreases list.len() - i,
    {
        assert(texts_view(list@)[i as int] == list@[i as int]@);
        if list[i] == *text {
            return true;
        }
        i += 1;
    }
    false
}

/// Appends to `existing` each of `additions` that is not there by then.
pub fn merge_unique(existing: Vec<String>, additions: &Vec<String>) -> (combined: Vec<String>)
    ensures
        texts_view(combined@) == merged(texts_view(existing@), texts_view(additions@)),
{
    let ghost start = texts_view(existing@);
    let ghost added = texts_view(additions@);
    let mut combined = existing;
    let mut i: usize = 0;
    while i < additions.len()
        invariant
            i <= additions.len(),
            added == texts_view(additions@),
            texts_view(combined@) == merged(start, added.take(i as int)),
        decreases additions.len() - i,
    {
        proof {
            let next = added.take(i + 1);
            assert(next.drop_last() =~= added.take(i as int));
            assert(next.last() == additions@[i as int]@);
        }
        let ghost before = combined@;
        if !has_text(&combined, &additions[i]) {
            combined.push(additions[i].clone());
            assert(texts_view(combined@) =~= texts_view(before).push(additions@[i as int]@));
        }
        i += 1;
    }
    assert(added.take(i as int) =~= added);
    combined
}

/// Merging keeps what was there, in place, and ends up holding every addition.
pub proof fn lemma_merged_keeps_and_covers(existing: Seq<Seq<char>>, additions: Seq<Seq<char>>)
    ensures
        existing.len() <= merged(existing, additions).len(),
        forall|i: int|
            0 <= i < existing.len() ==> (#[trigger] merged(existing, additions)[i]) == existing[i],
        forall|j: int|
            0 <= j < additions.len() ==> merged(existing, additions).contains(
                #[trigger] additions[j],
            ),
    decreases additions.len(),
{
    if additions.len() > 0 {
        let shorter = additions.drop_last();
        lemma_merged_keeps_and_covers(existing, shorter);
        let before = merged(existing, shorter);
        let after = merged(existing, additions);
        assert forall|j: int| 0 <= j < additions.len() implies after.contains(
            #[trigger] additions[j],
        ) by {
            if j < shorter.len() {
                assert(shorter[j] == additions[j]);
                let k = choose|k: int| 0 <= k < before.len() && before[k] == shorter[j];
                assert(after[k] == additions[j]);
            } else {
                if before.contains(additions.last()) {
                } else {
                    assert(after[before.len() as int] == additions.last());
                }
            }
        }
    }
}

/// Merging into a list without repetitions yields one without repetitions.
pub proof fn lemma_merged_has_no_repetition(existing: Seq<Seq<char>>, additions: Seq<Seq<char>>)
    requires
        existing.no_duplicates(),
    ensures
        merged(existing, additions).no_duplicates(),
    decreases additions.len(),
{
    if additions.len() > 0 {
        lemma_merged_has_no_repetition(existing, additions.drop_last());
    }
}

} // verus!
