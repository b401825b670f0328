//! The prompt templates: one fixed text per action, with the caller's input set in.
//!
//! Nothing is escaped and nothing is left out: each prompt is the template's
//! pieces and the inputs, one after the other.

use vstd::prelude::*;
use vstd::string::StringExecFns;
use crate::json::{
    json_model, json_pretty, JsonModel, member, pretty_json, text_of, unsigned_of, value_as_str,
    value_as_u64, value_get,
};
use crate::text::{contains_text, lemma_contains_middle};
use crate::types::ActionType;

verus! {

/// What stands before the CV text in the skill-extraction prompt.
pub const EXTRACT_SKILLS_OPENING: &'static str = r#"You are an expert CV/resume analyzer. Analyze the following CV/resume text and extract structured information.

CV Text:
"#;

/// The shape of the answer and the guidelines of the skill-extraction prompt.
pub const EXTRACT_SKILLS_CLOSING: &'static str = r#"

Please extract and return a JSON object with the following structure:
{
  "technical_skills": [
    {"name": "Python", "proficiency": "advanced", "category": "programming_language"},
    {"name": "React", "proficiency": "intermediate", "category": "framework"}
  ],
  "soft_skills": ["communication", "leadership", "problem-solving"],
  "roles": ["Software Engineer", "Full Stack Developer"],
  "domains": ["Web Development", "E-commerce"],
  "certifications": ["AWS Certified Solutions Architect"],
  "tools": ["Git", "Docker", "Jenkins"],
  "years_of_experience": 3.5,
  "education": ["B.S. Computer Science"]
}

Guidelines:
- Extract ONLY what is explicitly mentioned or strongly implied in the CV
- For technical_skills, include programming languages, frameworks, libraries
- Categories: programming_language, framework, library, database, cloud, devops, design_tool
- Proficiency levels: beginner, intermediate, advanced, expert (infer from context)
- Be comprehensive but accurate
- Return valid JSON only, no additional text"#;

/// What stands before the tech stack in the roadmap prompt.
pub const ROADMAP_OPENING: &'static str = r#"You are an expert career advisor and learning path designer. Create a comprehensive learning roadmap for: "#;

/// Introduces the skills that the learner already has.
pub const CURRENT_SKILLS_LABEL: &'static str = r#"

Current skills: "#;

/// The shape of the answer and the guidelines of the roadmap prompt.
pub const ROADMAP_CLOSING: &'static str = r#"

Return a JSON object with this structure:
{
  "stack_name": "Full Stack Development",
  "prerequisites": ["Basic programming knowledge", "HTML/CSS basics"],
  "estimated_duration": "6-8 months",
  "difficulty": "intermediate",
  "phases": [
    {
      "phase": 1,
      "title": "Fundamentals",
      "topics": ["JavaScript basics", "ES6+ features", "DOM manipulation"],
      "duration": "4-6 weeks",
      "resources": ["MDN Web Docs", "JavaScript.info"]
    }
  ]
}

Guidelines:
- Create 4-6 phases with logical progression
- Each phase should have specific, actionable topics
- Include realistic time estimates
- Suggest high-quality free and paid resources
- Consider the user's current skills if provided
- Return valid JSON only"#;

/// What stands before the question in the question prompt.
pub const QUESTION_OPENING: &'static str = r#"You are a knowledgeable career advisor specializing in technology careers. Answer the following question:

Question: "#;

/// Introduces what is known about the person who asks.
pub const CONTEXT_LABEL: &'static str = r#"

Context: "#;

/// The shape of the answer of the question prompt.
pub const QUESTION_CLOSING: &'static str = r#"

Provide a helpful, accurate, and actionable answer. Include:
- Direct answer to the question
- Practical advice or steps
- Related topics the user might find helpful

Return a JSON object:
{
  "question": "the question",
  "answer": "your detailed answer here",
  "related_topics": ["topic1", "topic2", "topic3"]
}

Return valid JSON only."#;

/// What stands before the content type in the content prompt.
pub const CONTENT_OPENING: &'static str = r#"You are an expert career content writer. Generate "#;

/// Stands between the content type and the input.
pub const CONTENT_INPUT_LABEL: &'static str = r#" based on the following:

Input:
"#;

/// Stands between the input and the parameters.
pub const CONTENT_PARAMETERS_LABEL: &'static str = r#"

Parameters:
"#;

/// Opens the shape of the answer, up to the content type.
pub const CONTENT_SHAPE_OPENING: &'static str = r#"

Return a JSON object:
{
  "content_type": ""#;

/// The rest of the shape and the guidelines of the content prompt.
pub const CONTENT_CLOSING: &'static str = r#"",
  "content": "the generated content here",
  "metadata": {"word_count": 150, "tone": "professional"}
}

Guidelines:
- Make it professional and tailored
- Be specific and actionable
- Use appropriate formatting
- Return valid JSON only"#;

/// The content type of a request that names none.
pub const GENERIC_CONTENT_TYPE: &'static str = r#"generic"#;

/// `label` followed by `value`, or nothing where there is no value.
pub open spec fn optional_fragment(label: Seq<char>, value: Option<Seq<char>>) -> Seq<char> {
    match value {
        Some(v) => label + v,
        None => Seq::<char>::empty(),
    }
}

/// The prompt that asks for the skills in a CV.
pub open spec fn extract_skills_text(cv_text: Seq<char>) -> Seq<char> {
    EXTRACT_SKILLS_OPENING@ + cv_text + EXTRACT_SKILLS_CLOSING@
}

/// The prompt that asks for a learning roadmap.
pub open spec fn roadmap_text(tech_stack: Seq<char>, current_skills: Option<Seq<char>>) -> Seq<
    char,
> {
    ROADMAP_OPENING@ + tech_stack + optional_fragment(CURRENT_SKILLS_LABEL@, current_skills)
        + ROADMAP_CLOSING@
}

/// The prompt that asks a career question.
pub open spec fn question_text(question: Seq<char>, context: Option<Seq<char>>) -> Seq<char> {
    QUESTION_OPENING@ + question + optional_fragment(CONTEXT_LABEL@, context) + QUESTION_CLOSING@
}

/// The prompt that asks for a piece of content. `parameters` is the text in which
/// the request's parameters are shown.
pub open spec fn content_text(
    content_type: Seq<char>,
    input: Seq<char>,
    parameters: Seq<char>,
) -> Seq<char> {
    CONTENT_OPENING@ + content_type + CONTENT_INPUT_LABEL@ + input + CONTENT_PARAMETERS_LABEL@
        + parameters + CONTENT_SHAPE_OPENING@ + content_type + CONTENT_CLOSING@
}

/// The string parameter `key`, where the parameters are an object that has it.
pub open spec fn text_parameter(parameters: Option<JsonModel>, key: Seq<char>) -> Option<
    Seq<char>,
> {
    match parameters {
        Some(p) => match member(p, key) {
            Some(x) => text_of(x),
            None => None,
        },
        None => None,
    }
}

/// The numeric parameter `key`, cut to 32 bits, where the parameters are an object
/// that holds a non-negative integer under that name.
pub open spec fn number_parameter(parameters: Option<JsonModel>, key: Seq<char>) -> Option<u32> {
    match parameters {
        Some(p) => match member(p, key) {
            Some(x) => match unsigned_of(x) {
                Some(n) => Some((n % 0x1_0000_0000) as u32),
                None => None,
            },
            None => None,
        },
        None => None,
    }
}

/// The content type that a request names, or the generic one.
pub open spec fn content_type_of(parameters: Option<JsonModel>) -> Seq<char> {
    match text_parameter(parameters, "content_type"@) {
        Some(t) => t,
        None => GENERIC_CONTENT_TYPE@,
    }
}

/// The parameters as indented JSON; empty where there are none or where they
/// cannot be written.
pub open spec fn parameters_text(parameters: Option<JsonModel>) -> Seq<char> {
    match parameters {
        Some(p) => match json_pretty(p) {
            Some(t) => t,
            None => Seq::<char>::empty(),
        },
        None => Seq::<char>::empty(),
    }
}

/// The prompt of a request: a function of the action, the input and the
/// parameters, and of nothing else. The roadmap's `timeframe_months` and
/// `learning_hours_per_week` do not appear in it.
pub open spec fn prompt_text(
    action: ActionType,
    input: Seq<char>,
    parameters: Option<JsonModel>,
) -> Seq<char> {
    match action {
        ActionType::ExtractSkills => extract_skills_text(input),
        ActionType::GenerateRoadmap => roadmap_text(
            input,
            text_parameter(parameters, "current_skills"@),
        ),
        ActionType::AskQuestion => question_text(input, text_parameter(parameters, "context"@)),
        ActionType::GenerateContent => content_text(
            content_type_of(parameters),
            input,
            parameters_text(parameters),
        ),
    }
}

/// The contents of an optional value.
pub open spec fn optional_model(parameters: Option<&serde_json::Value>) -> Option<JsonModel> {
    match parameters {
        Some(p) => Some(json_model(*p)),
        None => None,
    }
}

/// The text of an optional string slice.
pub open spec fn optional_text(value: Option<&str>) -> Option<Seq<char>> {
    match value {
        Some(v) => Some(v@),
        None => None,
    }
}

/// Reads a string parameter.
pub fn parameter_text<'a>(parameters: Option<&'a serde_json::Value>, key: &str) -> (r: Option<
    &'a str,
>)
    ensures
        optional_text(r) == text_parameter(optional_model(parameters), key@),
{
    match parameters {
        Some(p) => match value_get(p, key) {
            Some(x) => value_as_str(x),
            None => None,
        },
        None => None,
    }
}

/// Reads a numeric parameter, keeping its low 32 bits.
pub fn parameter_number(parameters: Option<&serde_json::Value>, key: &str) -> (r: Option<u32>)
    ensures
        r == number_parameter(optional_model(parameters), key@),
{
    match parameters {
        Some(p) => match value_get(p, key) {
            Some(x) => match value_as_u64(x) {
                Some(n) => Some((n % 0x1_0000_0000) as u32),
                None => None,
            },
            None => None,
        },
        None => None,
    }
}

/// Writes the parameters as indented JSON.
pub fn show_parameters(parameters: Option<&serde_json::Value>) -> (s: String)
    ensures
        s@ == parameters_text(optional_model(parameters)),
{
    match parameters {
        Some(p) => match pretty_json(p) {
            Ok(t) => t,
            Err(_) => String::new(),
        },
        None => String::new(),
    }
}

fn append_optional(s: &mut String, label: &str, value: Option<&str>)
    ensures
        final(s)@ == old(s)@ + optional_fragment(label@, optional_text(value)),
{
    match value {
        Some(v) => {
            s.append(label);
            s.append(v);
            assert(s@ =~= old(s)@ + (label@ + v@));
        },
        None => {
            assert(s@ =~= old(s)@ + Seq::<char>::empty());
        },
    }
}

/// Renders the skill-extraction prompt.
pub fn extract_skills_prompt(cv_text: &str) -> (s: String)
    ensures
        s@ == extract_skills_text(cv_text@),
{
    let mut s = String::from_str(EXTRACT_SKILLS_OPENING);
    s.append(cv_text);
    s.append(EXTRACT_SKILLS_CLOSING);
    s
}

/// Renders the roadmap prompt.
pub fn roadmap_prompt(tech_stack: &str, current_skills: Option<&str>) -> (s: String)
    ensures
        s@ == roadmap_text(tech_stack@, optional_text(current_skills)),
{
    let mut s = String::from_str(ROADMAP_OPENING);
    s.append(tech_stack);
    append_optional(&mut s, CURRENT_SKILLS_LABEL, current_skills);
    s.append(ROADMAP_CLOSING);
    s
}

/// Renders the question prompt.
pub fn question_prompt(question: &str, context: Option<&str>) -> (s: String)
    ensures
        s@ == question_text(question@, optional_text(context)),
{
    let mut s = String::from_str(QUESTION_OPENING);
    s.append(question);
    append_optional(&mut s, CONTEXT_LABEL, context);
    s.append(QUESTION_CLOSING);
    s
}

/// Renders the content prompt around the text in which the parameters are shown.
pub fn content_prompt_with(content_type: &str, input: &str, parameters: &str) -> (s: String)
    ensures
        s@ == content_text(content_type@, input@, parameters@),
{
    let mut s = String::from_str(CONTENT_OPENING);
    s.append(content_type);
    s.append(CONTENT_INPUT_LABEL);
    s.append(input);
    s.append(CONTENT_PARAMETERS_LABEL);
    s.append(parameters);
    s.append(CONTENT_SHAPE_OPENING);
    s.append(content_type);
    s.append(CONTENT_CLOSING);
    s
}

/// Renders the content prompt, showing the parameters as indented JSON.
pub fn content_prompt(content_type: &str, input: &str, parameters: Option<
    &serde_json::Value,
>) -> (s: String)
    ensures
        s@ == content_text(content_type@, input@, parameters_text(optional_model(parameters))),
{
    let shown = show_parameters(parameters);
    content_prompt_with(content_type, input, shown.as_str())
}

/// Names the content type of a request.
pub fn content_type_parameter<'a>(parameters: Option<&'a serde_json::Value>) -> (r: &'a str)
    ensures
        r@ == content_type_of(optional_model(parameters)),
{
    match parameter_text(parameters, "content_type") {
        Some(t) => t,
        None => GENERIC_CONTENT_TYPE,
    }
}

/// Renders the prompt of a request.
pub fn build_prompt(action: ActionType, input: &str, parameters: Option<
    &serde_json::Value,
>) -> (s: String)
    ensures
        s@ == prompt_text(action, input@, optional_model(parameters)),
{
    match action {
        ActionType::ExtractSkills => extract_skills_prompt(input),
        ActionType::GenerateRoadmap => roadmap_prompt(
            input,
            parameter_text(parameters, "current_skills"),
        ),
        ActionType::AskQuestion => question_prompt(input, parameter_text(parameters, "context")),
        ActionType::GenerateContent => content_prompt(
            content_type_parameter(parameters),
            input,
            parameters,
        ),
    }
}

/// Rendering is a function: equal actions, inputs and parameters give prompts
/// that are equal character for character.
pub proof fn lemma_prompt_is_deterministic(
    action1: ActionType,
    input1: Seq<char>,
    parameters1: Option<JsonModel>,
    action2: ActionType,
    input2: Seq<char>,
    parameters2: Option<JsonModel>,
)
    requires
        action1 == action2,
        input1 == input2,
        parameters1 == parameters2,
    ensures
        prompt_text(action1, input1, parameters1) == prompt_text(action2, input2, parameters2),
{
}

/// Every prompt holds the caller's input, character for character.
pub proof fn lemma_prompt_embeds_input(
    action: ActionType,
    input: Seq<char>,
    parameters: Option<JsonModel>,
)
    ensures
        contains_text(prompt_text(action, input, parameters), input),
{
    match action {
        ActionType::ExtractSkills => {
            lemma_contains_middle(EXTRACT_SKILLS_OPENING@, input, EXTRACT_SKILLS_CLOSING@);
        },
        ActionType::GenerateRoadmap => {
            let after = optional_fragment(
                CURRENT_SKILLS_LABEL@,
                text_parameter(parameters, "current_skills"@),
            ) + ROADMAP_CLOSING@;
            lemma_contains_middle(ROADMAP_OPENING@, input, after);
            assert(prompt_text(action, input, parameters) =~= ROADMAP_OPENING@ + input + after);
        },
        ActionType::AskQuestion => {
            let after = optional_fragment(CONTEXT_LABEL@, text_parameter(parameters, "context"@))
                + QUESTION_CLOSING@;
            lemma_contains_middle(QUESTION_OPENING@, input, after);
            assert(prompt_text(action, input, parameters) =~= QUESTION_OPENING@ + input + after);
        },
        ActionType::GenerateContent => {
            let content_type = content_type_of(parameters);
            let before = CONTENT_OPENING@ + content_type + CONTENT_INPUT_LABEL@;
            let after = CONTENT_PARAMETERS_LABEL@ + parameters_text(parameters)
                + CONTENT_SHAPE_OPENING@ + content_type + CONTENT_CLOSING@;
            lemma_contains_middle(before, input, after);
            assert(prompt_text(action, input, parameters) =~= before + input + after);
        },
    }
}

} // verus!
