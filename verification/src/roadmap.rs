//! The roadmap endpoint: what it reads, what it asks, and what it stores of the
//! answer.

use vstd::prelude::*;
use vstd::string::StringExecFns;
use crate::errors::{AppError, AppErrorView};
use crate::json::{
    clone_value, get_text, json_model, JsonModel, JsonNumber, member, models_of, no_members,
    text_member, text_of, value_as_str, value_from_items, value_from_pairs, value_get,
};
use crate::payload::{
    flag_member_or, join_texts, joined, named_provider, number_member_or, payload_flag,
    payload_number, payload_provider, put_number, put_text, text_member_or,
};
use crate::text::texts_view;
use crate::types::{ActionType, AIActionRequest, AIActionRequestView, AIProvider};

verus! {

/// The time frame of a roadmap whose payload names none, in months.
pub const DEFAULT_TIMEFRAME_MONTHS: u32 = 6;

/// The weekly learning hours of a roadmap whose payload names none.
pub const DEFAULT_HOURS_PER_WEEK: u32 = 10;

/// What is said of when to apply where the answer does not say.
pub const DEFAULT_JOB_APPLICATION_TIMING: &'static str =
    "Apply after completing 60-70% of the roadmap";

/// What the roadmap endpoint reads from its payload.
#[derive(Debug)]
pub struct RoadmapPayload {
    pub target_role: String,
    pub timeframe_months: u32,
    pub learning_hours_per_week: u32,
    pub provider: AIProvider,
    pub include_current_skills: bool,
}

/// A [`RoadmapPayload`] as the contracts see it.
pub ghost struct RoadmapPayloadView {
    pub target_role: Seq<char>,
    pub timeframe_months: u32,
    pub learning_hours_per_week: u32,
    pub provider: AIProvider,
    pub include_current_skills: bool,
}

impl View for RoadmapPayload {
    type V = RoadmapPayloadView;

    open spec fn view(&self) -> RoadmapPayloadView {
        RoadmapPayloadView {
            target_role: self.target_role@,
            timeframe_months: self.timeframe_months,
            learning_hours_per_week: self.learning_hours_per_week,
            provider: self.provider,
            include_current_skills: self.include_current_skills,
        }
    }
}

/// The role that a roadmap payload aims at: the member `target_role` where the
/// payload has one, else the member `tech_stack`; in either case only a string.
pub open spec fn target_role_of(payload: JsonModel) -> Option<Seq<char>> {
    match member(payload, "target_role"@) {
        Some(x) => text_of(x),
        None => text_member(payload, "tech_stack"@),
    }
}

/// How the roadmap payload is read: the target role must be there; six months,
/// ten hours a week, Gemini and the user's current skills are the defaults.
pub open spec fn roadmap_payload(payload: JsonModel) -> Result<RoadmapPayloadView, AppErrorView> {
    match target_role_of(payload) {
        Some(target_role) => Ok(
            RoadmapPayloadView {
                target_role,
                timeframe_months: number_member_or(
                    payload,
                    "timeframe_months"@,
                    DEFAULT_TIMEFRAME_MONTHS,
                ),
                learning_hours_per_week: number_member_or(
                    payload,
                    "learning_hours_per_week"@,
                    DEFAULT_HOURS_PER_WEEK,
                ),
                provider: named_provider(text_member(payload, "provider"@)),
                include_current_skills: flag_member_or(payload, "include_current_skills"@, true),
            },
        ),
        None => Err(AppErrorView::ValidationError("target_role is required"@)),
    }
}

/// Reads the payload of the roadmap endpoint.
pub fn read_roadmap_payload(payload: &serde_json::Value) -> (r: Result<RoadmapPayload, AppError>)
    ensures
        (match r {
            Ok(p) => roadmap_payload(json_model(*payload)) == Ok::<
                RoadmapPayloadView,
                AppErrorView,
            >(p@),
            Err(e) => roadmap_payload(json_model(*payload)) == Err::<
                RoadmapPayloadView,
                AppErrorView,
            >(e@),
        }),
{
    let target = match value_get(payload, "target_role") {
        Some(x) => value_as_str(x),
        None => get_text(payload, "tech_stack"),
    };
    let target_role = match target {
        Some(t) => t,
        None => {
            return Err(AppError::ValidationError(String::from_str("target_role is required")));
        },
    };
    Ok(
        RoadmapPayload {
            target_role: String::from_str(target_role),
            timeframe_months: payload_number(payload, "timeframe_months", DEFAULT_TIMEFRAME_MONTHS),
            learning_hours_per_week: payload_number(
                payload,
                "learning_hours_per_week",
                DEFAULT_HOURS_PER_WEEK,
            ),
            provider: payload_provider(payload),
            include_current_skills: payload_flag(payload, "include_current_skills", true),
        },
    )
}

/// The parameters of a roadmap request: the current skills where they are known,
/// the time frame and the weekly hours.
pub open spec fn roadmap_parameters(
    current_skills: Option<Seq<char>>,
    timeframe_months: u32,
    learning_hours_per_week: u32,
) -> JsonModel {
    let skills = match current_skills {
        Some(s) => Map::<Seq<char>, JsonModel>::empty().insert(
            "current_skills"@,
            JsonModel::String(s),
        ),
        None => Map::<Seq<char>, JsonModel>::empty(),
    };
    JsonModel::Object(
        skills.insert(
            "timeframe_months"@,
            JsonModel::Number(JsonNumber::PosInt(timeframe_months as u64)),
        ).insert(
            "learning_hours_per_week"@,
            JsonModel::Number(JsonNumber::PosInt(learning_hours_per_week as u64)),
        ),
    )
}

/// The user's skills as a roadmap request shows them: separated by a comma and a
/// space, where the payload asks for them.
pub open spec fn shown_skills(wanted: bool, skills: Seq<Seq<char>>) -> Option<Seq<char>> {
    if wanted {
        Some(joined(skills, ", "@))
    } else {
        None
    }
}

/// The request that asks for a roadmap to the payload's target role.
/// `skills` are the user's current skills, which are shown only where the payload
/// asks for them.
pub fn roadmap_request(payload: &RoadmapPayload, skills: &Vec<String>) -> (request:
    AIActionRequest)
    ensures
        request@ == (AIActionRequestView {
            action: ActionType::GenerateRoadmap,
            provider: payload.provider,
            input: payload.target_role@,
            parameters: Some(
                roadmap_parameters(
                    shown_skills(payload.include_current_skills, texts_view(skills@)),
                    payload.timeframe_months,
                    payload.learning_hours_per_week,
                ),
            ),
        }),
{
    let mut members = no_members();
    proof {
        reveal_strlit("current_skills");
        reveal_strlit("timeframe_months");
        reveal_strlit("learning_hours_per_week");
        assert("current_skills"@.len() == 14);
        assert("timeframe_months"@.len() == 16);
        assert("learning_hours_per_week"@.len() == 23);
    }
    if payload.include_current_skills {
        let shown = join_texts(skills, ", ");
        put_text(&mut members, "current_skills", shown.as_str());
    }
    put_number(&mut members, "timeframe_months", payload.timeframe_months);
    put_number(&mut members, "learning_hours_per_week", payload.learning_hours_per_week);
    AIActionRequest {
        action: ActionType::GenerateRoadmap,
        provider: payload.provider,
        input: payload.target_role.clone(),
        parameters: Some(value_from_pairs(members)),
    }
}

/// The title under which a roadmap is stored.
pub open spec fn roadmap_title_text(target_role: Seq<char>) -> Seq<char> {
    "Roadmap to "@ + target_role
}

/// The title under which a roadmap is stored.
pub fn roadmap_title(target_role: &str) -> (title: String)
    ensures
        title@ == roadmap_title_text(target_role@),
{
    let mut title = String::from_str("Roadmap to ");
    title.append(target_role);
    title
}

/// The project suggestions of a roadmap: the member `project_suggestions` of the
/// answer, whatever it is, or an empty array.
pub open spec fn project_suggestions_of(data: JsonModel) -> JsonModel {
    match member(data, "project_suggestions"@) {
        Some(x) => x,
        None => JsonModel::Array(Seq::<JsonModel>::empty()),
    }
}

/// Takes the project suggestions out of a roadmap answer.
pub fn project_suggestions(data: &serde_json::Value) -> (v: serde_json::Value)
    ensures
        json_model(v) == project_suggestions_of(json_model(*data)),
{
    match value_get(data, "project_suggestions") {
        Some(x) => clone_value(x),
        None => {
            let items: Vec<serde_json::Value> = Vec::new();
            assert(models_of(items@) =~= Seq::<JsonModel>::empty());
            value_from_items(items)
        },
    }
}

/// Takes the advice on when to apply out of a roadmap answer, or the standing
/// advice where the answer has none.
pub fn job_application_timing(data: &serde_json::Value) -> (timing: String)
    ensures
        timing@ == text_member_or(
            json_model(*data),
            "job_application_timing"@,
            DEFAULT_JOB_APPLICATION_TIMING@,
        ),
{
    match get_text(data, "job_application_timing") {
        Some(t) => String::from_str(t),
        None => String::from_str(DEFAULT_JOB_APPLICATION_TIMING),
    }
}

} // verus!
