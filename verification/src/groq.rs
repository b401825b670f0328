//! The Groq client: how a prompt becomes a chat-completions call.

use vstd::prelude::*;
use vstd::string::StringExecFns;
use crate::errors::AppError;
use crate::http::{
    default_temperature, GroqRequest, GroqRequestView, HttpCall, HttpCallView, HttpReply, Message,
    MessageView, RequestBody, RequestBodyView, ResponseFormat, Temperature,
};
use crate::prompts::{
    content_prompt, content_text, extract_skills_prompt, extract_skills_text, optional_model,
    optional_text, parameters_text, question_prompt, question_text, roadmap_prompt, roadmap_text,
};
use crate::reply::{outcome_view, read_reply, reply_outcome};
use crate::types::AIProvider;

verus! {

/// Where Groq's API is served.
pub const GROQ_BASE_URL: &'static str = "https://api.groq.com/openai/v1";

/// The model that is asked when the caller names none.
pub const GROQ_DEFAULT_MODEL: &'static str = "llama-3.3-70b-versatile";

/// The role under which the prompt is sent.
pub const USER_ROLE: &'static str = "user";

/// The response format that constrains an answer to JSON.
pub const JSON_OBJECT_FORMAT: &'static str = "json_object";

/// The Groq call for a prompt: the key travels as a bearer token, the prompt is
/// the single user message, and in JSON mode the response format asks for a JSON
/// object.
pub open spec fn groq_call(
    base_url: Seq<char>,
    api_key: Seq<char>,
    prompt: Seq<char>,
    model: Option<Seq<char>>,
    temperature: Option<Temperature>,
    json_mode: bool,
) -> HttpCallView {
    HttpCallView {
        url: base_url + "/chat/completions"@,
        authorization: Some("Bearer "@ + api_key),
        body: RequestBodyView::Groq(
            GroqRequestView {
                model: match model {
                    Some(m) => m,
                    None => GROQ_DEFAULT_MODEL@,
                },
                messages: seq![MessageView { role: USER_ROLE@, content: prompt }],
                temperature: match temperature {
                    Some(t) => t,
                    None => default_temperature(),
                },
                response_format: if json_mode {
                    Some(JSON_OBJECT_FORMAT@)
                } else {
                    None
                },
            },
        ),
    }
}

/// A client for Groq: a key and the address of the API. It keeps no state
/// between calls.
pub struct GroqClient {
    api_key: String,
    base_url: String,
}

impl GroqClient {
    /// The key that the client presents.
    pub closed spec fn api_key(&self) -> Seq<char> {
        self.api_key@
    }

    /// The address under which the client reaches the API.
    pub closed spec fn base_url(&self) -> Seq<char> {
        self.base_url@
    }

    /// The call that this client makes for a prompt with the settings that all
    /// four operations share: the default model and JSON mode.
    pub open spec fn call_for(&self, prompt: Seq<char>, temperature: Temperature) -> HttpCallView {
        groq_call(self.base_url(), self.api_key(), prompt, None, Some(temperature), true)
    }

    /// A client that presents `api_key` at Groq's public address.
    pub fn new(api_key: String) -> (client: GroqClient)
        ensures
            client.api_key() == api_key@,
            client.base_url() == GROQ_BASE_URL@,
    {
        GroqClient { api_key, base_url: String::from_str(GROQ_BASE_URL) }
    }

    /// Builds the one call that asks Groq to complete `prompt`.
    pub fn generate(
        &self,
        prompt: &str,
        model: Option<&str>,
        temperature: Option<Temperature>,
        json_mode: bool,
    ) -> (call: HttpCall)
        ensures
            call@ == groq_call(
                self.base_url(),
                self.api_key(),
                prompt@,
                optional_text(model),
                temperature,
                json_mode,
            ),
    {
        let model = match model {
            Some(m) => String::from_str(m),
            None => String::from_str(GROQ_DEFAULT_MODEL),
        };
        let temperature = match temperature {
            Some(t) => t,
            None => Temperature { tenths: 7 },
        };
        let response_format = if json_mode {
            Some(ResponseFormat { format_type: String::from_str(JSON_OBJECT_FORMAT) })
        } else {
            None
        };
        let mut messages: Vec<Message> = Vec::new();
        messages.push(
            Message { role: String::from_str(USER_ROLE), content: String::from_str(prompt) },
        );
        let request = GroqRequest { model, messages, temperature, response_format };
        assert(request@.messages =~= seq![MessageView { role: USER_ROLE@, content: prompt@ }]);
        let mut url = self.base_url.clone();
        url.append("/chat/completions");
        let mut authorization = String::from_str("Bearer ");
        authorization.append(self.api_key.as_str());
        HttpCall { url, authorization: Some(authorization), body: RequestBody::Groq(request) }
    }

    /// The call that asks for the skills in a CV, at temperature 0.3.
    pub fn extract_skills(&self, cv_text: &str) -> (call: HttpCall)
        ensures
            call@ == self.call_for(extract_skills_text(cv_text@), Temperature { tenths: 3 }),
    {
        let prompt = extract_skills_prompt(cv_text);
        self.generate(prompt.as_str(), None, Some(Temperature { tenths: 3 }), true)
    }

    /// The call that asks for a learning roadmap, at temperature 0.7.
    pub fn generate_roadmap(&self, tech_stack: &str, current_skills: Option<&str>) -> (call:
        HttpCall)
        ensures
            call@ == self.call_for(
                roadmap_text(tech_stack@, optional_text(current_skills)),
                Temperature { tenths: 7 },
            ),
    {
        let prompt = roadmap_prompt(tech_stack, current_skills);
        self.generate(prompt.as_str(), None, Some(Temperature { tenths: 7 }), true)
    }

    /// The call that asks a career question, at temperature 0.8.
    pub fn answer_question(&self, question: &str, context: Option<&str>) -> (call: HttpCall)
        ensures
            call@ == self.call_for(
                question_text(question@, optional_text(context)),
                Temperature { tenths: 8 },
            ),
    {
        let prompt = question_prompt(question, context);
        self.generate(prompt.as_str(), None, Some(Temperature { tenths: 8 }), true)
    }

    /// The call that asks for a piece of content, at temperature 0.8.
    pub fn generate_content(
        &self,
        content_type: &str,
        input: &str,
        parameters: Option<&serde_json::Value>,
    ) -> (call: HttpCall)
        ensures
            call@ == self.call_for(
                content_text(content_type@, input@, parameters_text(optional_model(parameters))),
                Temperature { tenths: 8 },
            ),
    {
        let prompt = content_prompt(content_type, input, parameters);
        self.generate(prompt.as_str(), None, Some(Temperature { tenths: 8 }), true)
    }

    /// Reads Groq's reply to a call.
    pub fn read_reply(&self, reply: &HttpReply) -> (r: Result<String, AppError>)
        ensures
            outcome_view(r) == reply_outcome(AIProvider::Groq, reply@),
    {
        read_reply(AIProvider::Groq, reply)
    }
}

} // verus!
