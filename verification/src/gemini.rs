//! The Gemini client: how a prompt becomes a `generateContent` call.

use vstd::prelude::*;
use vstd::string::StringExecFns;
use crate::errors::AppError;
use crate::http::{
    Content, default_temperature, GeminiRequest, GeminiRequestView, GenerationConfig,
    GenerationConfigView, HttpCall, HttpCallView, HttpReply, Part, RequestBody, RequestBodyView,
    Temperature,
};
use crate::prompts::{
    content_prompt, content_text, extract_skills_prompt, extract_skills_text, optional_model,
    optional_text, parameters_text, question_prompt, question_text, roadmap_prompt, roadmap_text,
};
use crate::reply::{outcome_view, read_reply, reply_outcome};
use crate::types::AIProvider;

verus! {

/// Where Gemini's API is served.
pub const GEMINI_BASE_URL: &'static str = "https://generativelanguage.googleapis.com/v1beta";

/// The model that is asked when the caller names none.
pub const GEMINI_DEFAULT_MODEL: &'static str = "gemini-2.0-flash";

/// The MIME type that constrains an answer to JSON.
pub const JSON_MIME_TYPE: &'static str = "application/json";

/// The Gemini call for a prompt: the key travels in the URL, the prompt is the
/// single part of the single content entry, and the configuration carries the
/// temperature and, in JSON mode, the JSON MIME type.
pub open spec fn gemini_call(
    base_url: Seq<char>,
    api_key: Seq<char>,
    prompt: Seq<char>,
    model: Option<Seq<char>>,
    temperature: Option<Temperature>,
    json_mode: bool,
) -> HttpCallView {
    HttpCallView {
        url: base_url + "/models/"@ + match model {
            Some(m) => m,
            None => GEMINI_DEFAULT_MODEL@,
        } + ":generateContent?key="@ + api_key,
        authorization: None,
        body: RequestBodyView::Gemini(
            GeminiRequestView {
                contents: seq![seq![prompt]],
                generation_config: Some(
                    GenerationConfigView {
                        temperature: match temperature {
                            Some(t) => t,
                            None => default_temperature(),
                        },
                        response_mime_type: if json_mode {
                            Some(JSON_MIME_TYPE@)
                        } else {
                            None
                        },
                    },
                ),
            },
        ),
    }
}

/// A client for Gemini: a key and the address of the API. It keeps no state
/// between calls.
pub struct GeminiClient {
    api_key: String,
    base_url: String,
}

impl GeminiClient {
    /// The key that the client presents.
    pub closed spec fn api_key(&self) -> Seq<char> {
        self.api_key@
    }

    /// The address under which the client reaches the API.
    pub closed spec fn base_url(&self) -> Seq<char> {
        self.base_url@
    }

    /// The call that this client makes for a prompt with the settings that all
    /// four operations share: the default model and JSON mode.
    pub open spec fn call_for(&self, prompt: Seq<char>, temperature: Temperature) -> HttpCallView {
        gemini_call(self.base_url(), self.api_key(), prompt, None, Some(temperature), true)
    }

    /// A client that presents `api_key` at Gemini's public address.
    pub fn new(api_key: String) -> (client: GeminiClient)
        ensures
            client.api_key() == api_key@,
            client.base_url() == GEMINI_BASE_URL@,
    {
        GeminiClient { api_key, base_url: String::from_str(GEMINI_BASE_URL) }
    }

    /// Builds the one call that asks Gemini to complete `prompt`.
    pub fn generate(
        &self,
        prompt: &str,
        model: Option<&str>,
        temperature: Option<Temperature>,
        json_mode: bool,
    ) -> (call: HttpCall)
        ensures
            call@ == gemini_call(
                self.base_url(),
                self.api_key(),
                prompt@,
                optional_text(model),
                temperature,
                json_mode,
            ),
    {
        let model = match model {
            Some(m) => m,
            None => GEMINI_DEFAULT_MODEL,
        };
        let temperature = match temperature {
            Some(t) => t,
            None => Temperature { tenths: 7 },
        };
        let response_mime_type = if json_mode {
            Some(String::from_str(JSON_MIME_TYPE))
        } else {
            None
        };
        let mut parts: Vec<Part> = Vec::new();
        parts.push(Part { text: String::from_str(prompt) });
        let content = Content { parts };
        assert(content@ =~= seq![prompt@]);
        let mut contents: Vec<Content> = Vec::new();
        contents.push(content);
        let request = GeminiRequest {
            contents,
            generation_config: Some(GenerationConfig { temperature, response_mime_type }),
        };
        assert(request@.contents =~= seq![seq![prompt@]]);
        let mut url = self.base_url.clone();
        url.append("/models/");
        url.append(model);
        url.append(":generateContent?key=");
        url.append(self.api_key.as_str());
        HttpCall { url, authorization: None, body: RequestBody::Gemini(request) }
    }

    /// The call that asks for the skills in a CV, at temperature 0.3.
    pub fn extract_skills(&self, cv_text: &str) -> (call: HttpCall)
        ensures
            call@ == self.call_for(extract_skills_text(cv_text@), Temperature { tenths: 3 }),
    {
        let prompt = extract_skills_prompt(cv_text);
        self.generate(prompt.as_str(), None, Some(Temperature { tenths: 3 }), true)
    }

    /// The call that asks for a learning roadmap, at temperature 0.7.
    pub fn generate_roadmap(&self, tech_stack: &str, current_skills: Option<&str>) -> (call:
        HttpCall)
        ensures
            call@ == self.call_for(
                roadmap_text(tech_stack@, optional_text(current_skills)),
                Temperature { tenths: 7 },
            ),
    {
        let prompt = roadmap_prompt(tech_stack, current_skills);
        self.generate(prompt.as_str(), None, Some(Temperature { tenths: 7 }), true)
    }

    /// The call that asks a career question, at temperature 0.8.
    pub fn answer_question(&self, question: &str, context: Option<&str>) -> (call: HttpCall)
        ensures
            call@ == self.call_for(
                question_text(question@, optional_text(context)),
                Temperature { tenths: 8 },
            ),
    {
        let prompt = question_prompt(question, context);
        self.generate(prompt.as_str(), None, Some(Temperature { tenths: 8 }), true)
    }

    /// The call that asks for a piece of content, at temperature 0.8.
    pub fn generate_content(
        &self,
        content_type: &str,
        input: &str,
        parameters: Option<&serde_json::Value>,
    ) -> (call: HttpCall)
        ensures
            call@ == self.call_for(
                content_text(content_type@, input@, parameters_text(optional_model(parameters))),
                Temperature { tenths: 8 },
            ),
    {
        let prompt = content_prompt(content_type, input, parameters);
        self.generate(prompt.as_str(), None, Some(Temperature { tenths: 8 }), true)
    }

    /// Reads Gemini's reply to a call.
    pub fn read_reply(&self, reply: &HttpReply) -> (r: Result<String, AppError>)
        ensures
            outcome_view(r) == reply_outcome(AIProvider::Gemini, reply@),
    {
        read_reply(AIProvider::Gemini, reply)
    }
}

} // verus!
