//! Requests, the result envelope, and the shapes that the prompts ask the
//! providers to answer in.

use vstd::prelude::*;
use crate::json::{
    add_member, json_model, JsonModel, no_members, single_text_object, value_from_pairs,
    value_from_text,
};

verus! {

/// The remote service that handles a request.
#[derive(Debug, Clone, Copy, PartialEq, Eq, Structural)]
pub enum AIProvider {
    /// Google Gemini.
    Gemini,
    /// Groq.
    Groq,
}

/// The task that a request asks for.
#[derive(Debug, Clone, Copy, PartialEq, Eq, Structural)]
pub enum ActionType {
    /// Extract skills from CV or profile text.
    ExtractSkills,
    /// Generate a learning roadmap for a tech stack.
    GenerateRoadmap,
    /// Answer a question about career development.
    AskQuestion,
    /// Generate career-related content, such as a cover letter.
    GenerateContent,
}

/// The provider of a request that names none.
pub fn default_provider() -> (p: AIProvider)
    ensures
        p == AIProvider::Gemini,
{
    AIProvider::Gemini
}

/// One request to the dispatch layer.
#[derive(Debug)]
pub struct AIActionRequest {
    /// The task to perform.
    pub action: ActionType,
    /// The provider to use.
    pub provider: AIProvider,
    /// The text that the task works on; it must not be empty.
    pub input: String,
    /// Further parameters, as an open JSON object.
    pub parameters: Option<serde_json::Value>,
}

/// An [`AIActionRequest`] as the contracts see it.
pub ghost struct AIActionRequestView {
    pub action: ActionType,
    pub provider: AIProvider,
    pub input: Seq<char>,
    pub parameters: Option<JsonModel>,
}

impl AIActionRequestView {
    /// A request is well formed when it carries some input.
    pub open spec fn well_formed(self) -> bool {
        self.input.len() > 0
    }
}

impl View for AIActionRequest {
    type V = AIActionRequestView;

    open spec fn view(&self) -> AIActionRequestView {
        AIActionRequestView {
            action: self.action,
            provider: self.provider,
            input: self.input@,
            parameters: match self.parameters {
                Some(p) => Some(json_model(p)),
                None => None,
            },
        }
    }
}

/// The uniform envelope in which every outcome is reported.
#[derive(Debug)]
pub struct AIActionResponse {
    /// Whether the action succeeded.
    pub success: bool,
    /// The structured result, or an object with an `error` member.
    pub data: serde_json::Value,
    /// The provider that was asked.
    pub provider: AIProvider,
    /// The failure message; absent on success.
    pub message: Option<String>,
}

/// An [`AIActionResponse`] as the contracts see it.
pub ghost struct AIActionResponseView {
    pub success: bool,
    pub data: JsonModel,
    pub provider: AIProvider,
    pub message: Option<Seq<char>>,
}

impl View for AIActionResponse {
    type V = AIActionResponseView;

    open spec fn view(&self) -> AIActionResponseView {
        AIActionResponseView {
            success: self.success,
            data: json_model(self.data),
            provider: self.provider,
            message: match self.message {
                Some(m) => Some(m@),
                None => None,
            },
        }
    }
}

/// The envelope of a success that yielded `data`.
pub open spec fn success_envelope(provider: AIProvider, data: JsonModel) -> AIActionResponseView {
    AIActionResponseView { success: true, data, provider, message: None }
}

/// The envelope of a failure with the given message.
pub open spec fn failure_envelope(provider: AIProvider, message: Seq<char>) -> AIActionResponseView {
    AIActionResponseView {
        success: false,
        data: single_text_object("error"@, message),
        provider,
        message: Some(message),
    }
}

impl AIActionResponse {
    /// Wraps a parsed result.
    pub fn succeeded(provider: AIProvider, data: serde_json::Value) -> (r: AIActionResponse)
        ensures
            r@ == success_envelope(provider, json_model(data)),
            r.data == data,
    {
        AIActionResponse { success: true, data, provider, message: None }
    }

    /// Wraps a failure: the message stands both in `data.error` and in `message`.
    pub fn failed(provider: AIProvider, message: &str) -> (r: AIActionResponse)
        ensures
            r@ == failure_envelope(provider, message@),
    {
        let mut members = no_members();
        add_member(&mut members, "error", value_from_text(message));
        AIActionResponse {
            success: false,
            data: value_from_pairs(members),
            provider,
            message: Some(message.to_owned()),
        }
    }
}

/// A skill with its proficiency.
#[derive(Debug)]
pub struct SkillItem {
    /// Name of the skill.
    pub name: String,
    /// One of beginner, intermediate, advanced, expert.
    pub proficiency: Option<String>,
    /// For instance `programming_language`, `framework`, `database`.
    pub category: Option<String>,
}

/// A roadmap for learning a tech stack.
#[derive(Debug)]
pub struct TechStackRoadmap {
    /// Tech stack name.
    pub stack_name: String,
    /// Learning phases, in order.
    pub phases: Vec<LearningPhase>,
    /// What the learner should know beforehand.
    pub prerequisites: Vec<String>,
    /// Estimated total duration.
    pub estimated_duration: String,
    /// Difficulty level.
    pub difficulty: String,
}

/// One phase of a roadmap.
#[derive(Debug)]
pub struct LearningPhase {
    /// Phase number.
    pub phase: u32,
    /// Phase title.
    pub title: String,
    /// Topics to learn in this phase.
    pub topics: Vec<String>,
    /// Estimated duration of this phase.
    pub duration: String,
    /// Suggested resources.
    pub resources: Option<Vec<String>>,
}

/// An answer to a question.
#[derive(Debug)]
pub struct QuestionResponse {
    /// The question as asked.
    pub question: String,
    /// The answer.
    pub answer: String,
    /// Follow-up topics.
    pub related_topics: Option<Vec<String>>,
}

/// A piece of generated content.
#[derive(Debug)]
pub struct GeneratedContent {
    /// The kind of content.
    pub content_type: String,
    /// The content itself.
    pub content: String,
    /// Anything else the provider reported about it.
    pub metadata: Option<serde_json::Value>,
}

} // verus!
