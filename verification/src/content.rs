//! The endpoints that ask for generated content or for the mentor's advice: the
//! prompts they make of the user's profile.

use vstd::prelude::*;
use vstd::string::StringExecFns;
use crate::errors::{AppError, AppErrorView};
use crate::json::{
    get_items, get_text, items_member, json_model, JsonModel, no_members, value_from_pairs,
};
use crate::payload::{join_texts, joined, put_text, text_member_or};
use crate::skills::{collect_names, names_of};
use crate::text::texts_view;
use crate::types::{ActionType, AIActionRequest, AIActionRequestView, AIProvider};

verus! {

/// How the professional-summary prompt starts.
pub const SUMMARY_OPENING: &'static str =
    "Generate a professional summary for a CV/LinkedIn profile based on the following information:\n\nUser Profile:\nSkills: ";

/// How the professional-summary prompt ends.
pub const SUMMARY_CLOSING: &'static str =
    "\n\nCreate a compelling 2-3 sentence professional summary that highlights key strengths, experience, and career goals. Make it engaging and professional.";

/// How the project-descriptions prompt starts.
pub const PROJECTS_OPENING: &'static str =
    "Improve these project descriptions for a professional CV. Make them more impactful using action verbs and quantifiable achievements where possible. User's skills: ";

/// How the project-descriptions prompt ends.
pub const PROJECTS_CLOSING: &'static str =
    "\n\nReturn a JSON array of improved descriptions in the same order.";

/// How the profile-suggestions prompt starts.
pub const SUGGESTIONS_OPENING: &'static str =
    "Provide 5 specific, actionable suggestions to improve a ";

/// What stands between the platform and the skills in the profile-suggestions prompt.
pub const SUGGESTIONS_BACKGROUND: &'static str =
    " profile for a job seeker with the following background:\n\nSkills: ";

/// How the profile-suggestions prompt ends.
pub const SUGGESTIONS_CLOSING: &'static str =
    "\n\nReturn suggestions as a JSON array of objects with 'category' and 'suggestion' fields.";

/// What the endpoints know of the signed-in user. The experience level is held
/// as the text in which it is shown.
#[derive(Debug)]
pub struct UserProfile {
    pub skills: Vec<String>,
    pub projects: Vec<String>,
    pub target_roles: Vec<String>,
    pub education_level: Option<String>,
    pub experience_level: String,
}

/// A [`UserProfile`] as the contracts see it.
pub ghost struct UserProfileView {
    pub skills: Seq<Seq<char>>,
    pub projects: Seq<Seq<char>>,
    pub target_roles: Seq<Seq<char>>,
    pub education_level: Option<Seq<char>>,
    pub experience_level: Seq<char>,
}

impl View for UserProfile {
    type V = UserProfileView;

    open spec fn view(&self) -> UserProfileView {
        UserProfileView {
            skills: texts_view(self.skills@),
            projects: texts_view(self.projects@),
            target_roles: texts_view(self.target_roles@),
            education_level: match self.education_level {
                Some(e) => Some(e@),
                None => None,
            },
            experience_level: self.experience_level@,
        }
    }
}

/// The education of a user as it is shown.
pub open spec fn shown_education(education_level: Option<Seq<char>>) -> Seq<char> {
    match education_level {
        Some(e) => e,
        None => "Not specified"@,
    }
}

fn education_of(profile: &UserProfile) -> (e: &str)
    ensures
        e@ == shown_education(profile@.education_level),
{
    match &profile.education_level {
        Some(e) => e.as_str(),
        None => "Not specified",
    }
}

/// A request for generated content, with parameters that are all strings.
pub open spec fn content_request(
    provider: AIProvider,
    input: Seq<char>,
    parameters: Map<Seq<char>, JsonModel>,
) -> AIActionRequestView {
    AIActionRequestView {
        action: ActionType::GenerateContent,
        provider,
        input,
        parameters: Some(JsonModel::Object(parameters)),
    }
}

/// The prompt of the professional-summary endpoint.
pub open spec fn summary_input(profile: UserProfileView) -> Seq<char> {
    SUMMARY_OPENING@ + joined(profile.skills, ", "@) + "\nProjects: "@ + joined(profile.projects, ", "@)
        + "\nTarget Roles: "@ + joined(profile.target_roles, ", "@) + "\nEducation: "@
        + shown_education(profile.education_level) + "\nExperience Level: "@
        + profile.experience_level + SUMMARY_CLOSING@
}

/// The parameters of the professional-summary endpoint.
pub open spec fn summary_parameters() -> Map<Seq<char>, JsonModel> {
    Map::<Seq<char>, JsonModel>::empty().insert(
        "content_type"@,
        JsonModel::String("professional_summary"@),
    ).insert("tone"@, JsonModel::String("professional"@)).insert(
        "length"@,
        JsonModel::String("short"@),
    )
}

/// The request that asks for a professional summary of a user.
pub fn summary_request(profile: &UserProfile, provider: AIProvider) -> (request: AIActionRequest)
    ensures
        request@ == content_request(provider, summary_input(profile@), summary_parameters()),
{
    let skills = join_texts(&profile.skills, ", ");
    let projects = join_texts(&profile.projects, ", ");
    let roles = join_texts(&profile.target_roles, ", ");
    let mut input = String::from_str(SUMMARY_OPENING);
    input.append(skills.as_str());
    input.append("\nProjects: ");
    input.append(projects.as_str());
    input.append("\nTarget Roles: ");
    input.append(roles.as_str());
    input.append("\nEducation: ");
    input.append(education_of(profile));
    input.append("\nExperience Level: ");
    input.append(profile.experience_level.as_str());
    input.append(SUMMARY_CLOSING);
    let mut members = no_members();
    proof {
        reveal_strlit("content_type");
        reveal_strlit("tone");
        reveal_strlit("length");
        assert("content_type"@.len() == 12);
        assert("tone"@.len() == 4);
        assert("length"@.len() == 6);
    }
    put_text(&mut members, "content_type", "professional_summary");
    put_text(&mut members, "tone", "professional");
    put_text(&mut members, "length", "short");
    AIActionRequest {
        action: ActionType::GenerateContent,
        provider,
        input,
        parameters: Some(value_from_pairs(members)),
    }
}

/// The prompt of the project-descriptions endpoint. `projects` are the
/// descriptions to improve.
pub open spec fn projects_input(skills: Seq<Seq<char>>, projects: Seq<Seq<char>>) -> Seq<char> {
    PROJECTS_OPENING@ + joined(skills, ", "@) + "\n\nProjects:\n- "@ + joined(projects, "\n- "@)
        + PROJECTS_CLOSING@
}

/// The parameters of the project-descriptions endpoint.
pub open spec fn projects_parameters() -> Map<Seq<char>, JsonModel> {
    Map::<Seq<char>, JsonModel>::empty().insert(
        "content_type"@,
        JsonModel::String("project_descriptions"@),
    ).insert("format"@, JsonModel::String("bullet_points"@))
}

/// How the project-descriptions payload is read: `projects` must be an array,
/// and its strings are the descriptions.
pub open spec fn projects_payload(payload: JsonModel) -> Result<Seq<Seq<char>>, AppErrorView> {
    match items_member(payload, "projects"@) {
        Some(items) => Ok(names_of(items, false)),
        None => Err(AppErrorView::ValidationError("projects array is required"@)),
    }
}

/// Reads the descriptions out of the payload of the project-descriptions endpoint.
pub fn read_projects_payload(payload: &serde_json::Value) -> (r: Result<Vec<String>, AppError>)
    ensures
        (match r {
            Ok(p) => projects_payload(json_model(*payload)) == Ok::<Seq<Seq<char>>, AppErrorView>(
                texts_view(p@),
            ),
            Err(e) => projects_payload(json_model(*payload)) == Err::<
                Seq<Seq<char>>,
                AppErrorView,
            >(e@),
        }),
{
    match get_items(payload, "projects") {
        Some(_) => Ok(collect_names(payload, "projects", false)),
        None => Err(AppError::ValidationError(String::from_str("projects array is required"))),
    }
}

/// The request that asks for better descriptions of a user's projects.
pub fn projects_request(skills: &Vec<String>, projects: &Vec<String>, provider: AIProvider) -> (request:
    AIActionRequest)
    ensures
        request@ == content_request(
            provider,
            projects_input(texts_view(skills@), texts_view(projects@)),
            projects_parameters(),
        ),
{
    let known_skills = join_texts(skills, ", ");
    let shown_projects = join_texts(projects, "\n- ");
    let mut input = String::from_str(PROJECTS_OPENING);
    input.append(known_skills.as_str());
    input.append("\n\nProjects:\n- ");
    input.append(shown_projects.as_str());
    input.append(PROJECTS_CLOSING);
    let mut members = no_members();
    proof {
        reveal_strlit("content_type");
        reveal_strlit("format");
        assert("content_type"@.len() == 12);
        assert("format"@.len() == 6);
    }
    put_text(&mut members, "content_type", "project_descriptions");
    put_text(&mut members, "format", "bullet_points");
    AIActionRequest {
        action: ActionType::GenerateContent,
        provider,
        input,
        parameters: Some(value_from_pairs(members)),
    }
}

/// The platform of a profile-suggestions payload that names none.
pub const DEFAULT_PLATFORM: &'static str = "linkedin";

/// Names the platform of a profile-suggestions payload.
pub fn payload_platform<'a>(payload: &'a serde_json::Value) -> (platform: &'a str)
    ensures
        platform@ == text_member_or(json_model(*payload), "platform"@, DEFAULT_PLATFORM@),
{
    match get_text(payload, "platform") {
        Some(p) => p,
        None => DEFAULT_PLATFORM,
    }
}

/// The prompt of the profile-suggestions endpoint.
pub open spec fn suggestions_input(platform: Seq<char>, profile: UserProfileView) -> Seq<char> {
    SUGGESTIONS_OPENING@ + platform + SUGGESTIONS_BACKGROUND@ + joined(profile.skills, ", "@)
        + "\nTarget Roles: "@ + joined(profile.target_roles, ", "@) + "\nExperience Level: "@
        + profile.experience_level + "\nEducation: "@ + shown_education(profile.education_level)
        + SUGGESTIONS_CLOSING@
}

/// The parameters of the profile-suggestions endpoint.
pub open spec fn suggestions_parameters(platform: Seq<char>) -> Map<Seq<char>, JsonModel> {
    Map::<Seq<char>, JsonModel>::empty().insert(
        "content_type"@,
        JsonModel::String("profile_suggestions"@),
    ).insert("platform"@, JsonModel::String(platform))
}

/// The request that asks how a user's profile on a platform could be improved.
pub fn suggestions_request(platform: &str, profile: &UserProfile, provider: AIProvider) -> (request:
    AIActionRequest)
    ensures
        request@ == content_request(
            provider,
            suggestions_input(platform@, profile@),
            suggestions_parameters(platform@),
        ),
{
    let skills = join_texts(&profile.skills, ", ");
    let roles = join_texts(&profile.target_roles, ", ");
    let mut input = String::from_str(SUGGESTIONS_OPENING);
    input.append(platform);
    input.append(SUGGESTIONS_BACKGROUND);
    input.append(skills.as_str());
    input.append("\nTarget Roles: ");
    input.append(roles.as_str());
    input.append("\nExperience Level: ");
    input.append(profile.experience_level.as_str());
    input.append("\nEducation: ");
    input.append(education_of(profile));
    input.append(SUGGESTIONS_CLOSING);
    let mut members = no_members();
    proof {
        reveal_strlit("content_type");
        reveal_strlit("platform");
        assert("content_type"@.len() == 12);
        assert("platform"@.len() == 8);
    }
    put_text(&mut members, "content_type", "profile_suggestions");
    put_text(&mut members, "platform", platform);
    AIActionRequest {
        action: ActionType::GenerateContent,
        provider,
        input,
        parameters: Some(value_from_pairs(members)),
    }
}

/// What the mentor is told about the user who asks.
pub open spec fn mentor_context(profile: UserProfileView) -> Seq<char> {
    "User's current skills: "@ + joined(profile.skills, ", "@) + "\nTarget roles: "@ + joined(
        profile.target_roles,
        ", "@,
    ) + "\nExperience level: "@ + profile.experience_level
}

/// The request that puts a user's question to the mentor, with the user's
/// background as its context.
pub fn mentor_request(question: &str, profile: &UserProfile, provider: AIProvider) -> (request:
    AIActionRequest)
    ensures
        request@ == (AIActionRequestView {
            action: ActionType::AskQuestion,
            provider,
            input: question@,
            parameters: Some(
                JsonModel::Object(
                    Map::<Seq<char>, JsonModel>::empty().insert(
                        "context"@,
                        JsonModel::String(mentor_context(profile@)),
                    ),
                ),
            ),
        }),
{
    let skills = join_texts(&profile.skills, ", ");
    let roles = join_texts(&profile.target_roles, ", ");
    let mut context = String::from_str("User's current skills: ");
    context.append(skills.as_str());
    context.append("\nTarget roles: ");
    context.append(roles.as_str());
    context.append("\nExperience level: ");
    context.append(profile.experience_level.as_str());
    let mut members = no_members();
    put_text(&mut members, "context", context.as_str());
    AIActionRequest {
        action: ActionType::AskQuestion,
        provider,
        input: String::from_str(question),
        parameters: Some(value_from_pairs(members)),
    }
}

} // verus!
