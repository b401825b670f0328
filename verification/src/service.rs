//! The dispatch layer: one service over both providers.
//!
//! A request is served in two steps around the exchange with the provider.
//! [`AIService::plan_action`] says which call to make, or refuses the request
//! before anything is sent; [`AIService::process_action`] turns the provider's
//! reply into the envelope. Whoever owns the network makes the call in between.

use vstd::prelude::*;
use vstd::string::StringExecFns;
use crate::errors::{AppError, AppErrorView};
use crate::gemini::{gemini_call, GeminiClient};
use crate::groq::{groq_call, GroqClient};
use crate::http::{HttpCall, HttpCallView, HttpReply, HttpReplyView, Temperature};
use crate::json::{error_text, json_model, json_parse, JsonModel, parse_json, text_member};
use crate::prompts::{
    content_text, content_type_parameter, extract_skills_text, optional_model, optional_text,
    parameter_number, parameter_text, parameters_text, prompt_text, question_text, roadmap_text,
};
use crate::reply::{lemma_rejection_names_status, outcome_view, refused_status, reply_outcome};
use crate::text::{contains_text, decimal};
use crate::types::{
    ActionType, AIActionRequest, AIActionRequestView, AIActionResponse, AIActionResponseView,
    AIProvider, failure_envelope, success_envelope,
};

verus! {

/// A client as the contracts see it: the provider it speaks to, its key and the
/// address of the API.
pub ghost struct ClientView {
    pub provider: AIProvider,
    pub api_key: Seq<char>,
    pub base_url: Seq<char>,
}

/// The call that a client makes for a prompt: its provider's wire shape, the
/// default model and JSON mode.
pub open spec fn client_call(client: ClientView, prompt: Seq<char>, temperature: Temperature) -> HttpCallView {
    match client.provider {
        AIProvider::Gemini => gemini_call(
            client.base_url,
            client.api_key,
            prompt,
            None,
            Some(temperature),
            true,
        ),
        AIProvider::Groq => groq_call(
            client.base_url,
            client.api_key,
            prompt,
            None,
            Some(temperature),
            true,
        ),
    }
}

/// The temperature at which an action is asked: 0.3 for extraction, 0.7 for
/// roadmaps, 0.8 for questions and content.
pub open spec fn action_temperature(action: ActionType) -> Temperature {
    match action {
        ActionType::ExtractSkills => Temperature { tenths: 3 },
        ActionType::GenerateRoadmap => Temperature { tenths: 7 },
        ActionType::AskQuestion => Temperature { tenths: 8 },
        ActionType::GenerateContent => Temperature { tenths: 8 },
    }
}

/// What every provider client can do: the four operations, each of which yields
/// the call to make, and the reading of the reply.
pub trait AIClient {
    /// The client as the contracts see it.
    spec fn client_view(&self) -> ClientView;

    /// The call that asks for the skills in a CV.
    fn extract_skills(&self, cv_text: &str) -> (call: HttpCall)
        ensures
            call@ == client_call(
                self.client_view(),
                extract_skills_text(cv_text@),
                action_temperature(ActionType::ExtractSkills),
            ),
    ;

    /// The call that asks for a learning roadmap. The time frame and the weekly
    /// hours are taken and do not show in the prompt.
    fn generate_roadmap(
        &self,
        tech_stack: &str,
        current_skills: Option<&str>,
        timeframe_months: Option<u32>,
        learning_hours_per_week: Option<u32>,
    ) -> (call: HttpCall)
        ensures
            call@ == client_call(
                self.client_view(),
                roadmap_text(tech_stack@, optional_text(current_skills)),
                action_temperature(ActionType::GenerateRoadmap),
            ),
    ;

    /// The call that asks a career question.
    fn answer_question(&self, question: &str, context: Option<&str>) -> (call: HttpCall)
        ensures
            call@ == client_call(
                self.client_view(),
                question_text(question@, optional_text(context)),
                action_temperature(ActionType::AskQuestion),
            ),
    ;

    /// The call that asks for a piece of content.
    fn generate_content(
        &self,
        content_type: &str,
        input: &str,
        parameters: Option<&serde_json::Value>,
    ) -> (call: HttpCall)
        ensures
            call@ == client_call(
                self.client_view(),
                content_text(content_type@, input@, parameters_text(optional_model(parameters))),
                action_temperature(ActionType::GenerateContent),
            ),
    ;

    /// Reads the provider's reply to a call.
    fn read_reply(&self, reply: &HttpReply) -> (r: Result<String, AppError>)
        ensures
            outcome_view(r) == reply_outcome(self.client_view().provider, reply@),
    ;
}

impl AIClient for GeminiClient {
    open spec fn client_view(&self) -> ClientView {
        ClientView {
            provider: AIProvider::Gemini,
            api_key: self.api_key(),
            base_url: self.base_url(),
        }
    }

    fn extract_skills(&self, cv_text: &str) -> (call: HttpCall) {
        GeminiClient::extract_skills(self, cv_text)
    }

    fn generate_roadmap(
        &self,
        tech_stack: &str,
        current_skills: Option<&str>,
        timeframe_months: Option<u32>,
        learning_hours_per_week: Option<u32>,
    ) -> (call: HttpCall) {
        GeminiClient::generate_roadmap(self, tech_stack, current_skills)
    }

    fn answer_question(&self, question: &str, context: Option<&str>) -> (call: HttpCall) {
        GeminiClient::answer_question(self, question, context)
    }

    fn generate_content(
        &self,
        content_type: &str,
        input: &str,
        parameters: Option<&serde_json::Value>,
    ) -> (call: HttpCall) {
        GeminiClient::generate_content(self, content_type, input, parameters)
    }

    fn read_reply(&self, reply: &HttpReply) -> (r: Result<String, AppError>) {
        GeminiClient::read_reply(self, reply)
    }
}

impl AIClient for GroqClient {
    open spec fn client_view(&self) -> ClientView {
        ClientView {
            provider: AIProvider::Groq,
            api_key: self.api_key(),
            base_url: self.base_url(),
        }
    }

    fn extract_skills(&self, cv_text: &str) -> (call: HttpCall) {
        GroqClient::extract_skills(self, cv_text)
    }

    fn generate_roadmap(
        &self,
        tech_stack: &str,
        current_skills: Option<&str>,
        timeframe_months: Option<u32>,
        learning_hours_per_week: Option<u32>,
    ) -> (call: HttpCall) {
        GroqClient::generate_roadmap(self, tech_stack, current_skills)
    }

    fn answer_question(&self, question: &str, context: Option<&str>) -> (call: HttpCall) {
        GroqClient::answer_question(self, question, context)
    }

    fn generate_content(
        &self,
        content_type: &str,
        input: &str,
        parameters: Option<&serde_json::Value>,
    ) -> (call: HttpCall) {
        GroqClient::generate_content(self, content_type, input, parameters)
    }

    fn read_reply(&self, reply: &HttpReply) -> (r: Result<String, AppError>) {
        GroqClient::read_reply(self, reply)
    }
}

/// What introduces the parser's complaint about a completion that is not JSON.
pub const UNPARSABLE_COMPLETION: &'static str = "Failed to parse AI response: ";

/// What is said of a request without input.
pub const INPUT_REQUIRED: &'static str = "input is required";

/// What is said when a provider's key was never configured.
pub open spec fn missing_key_text(provider: AIProvider) -> Seq<char> {
    match provider {
        AIProvider::Gemini => "Gemini API key not configured"@,
        AIProvider::Groq => "Groq API key not configured"@,
    }
}

/// What a completion's text yields once it was read as JSON: the value, or an
/// external-service failure that carries the parser's complaint.
pub open spec fn completion_outcome(parsed: Result<JsonModel, Seq<char>>) -> Result<
    JsonModel,
    AppErrorView,
> {
    match parsed {
        Ok(data) => Ok(data),
        Err(e) => Err(AppErrorView::ExternalServiceError(UNPARSABLE_COMPLETION@ + e)),
    }
}

/// What an action yields, given what the reply yielded: the completion read as
/// JSON, or the failure.
pub open spec fn action_outcome(completion: Result<Seq<char>, AppErrorView>) -> Result<
    JsonModel,
    AppErrorView,
> {
    match completion {
        Ok(text) => completion_outcome(json_parse(text)),
        Err(e) => Err(e),
    }
}

/// The envelope of an outcome: the value on success; on failure the message,
/// both as `data.error` and as `message`.
pub open spec fn envelope_of(provider: AIProvider, outcome: Result<JsonModel, AppErrorView>) -> AIActionResponseView {
    match outcome {
        Ok(data) => success_envelope(provider, data),
        Err(e) => failure_envelope(provider, e.message()),
    }
}

/// The outcome of an action as a view of the executable result.
pub open spec fn data_view(r: Result<serde_json::Value, AppError>) -> Result<
    JsonModel,
    AppErrorView,
> {
    match r {
        Ok(v) => Ok(json_model(v)),
        Err(e) => Err(e@),
    }
}

/// Wraps the outcome of an action in the envelope.
pub fn envelope_for(provider: AIProvider, outcome: Result<serde_json::Value, AppError>) -> (r:
    AIActionResponse)
    ensures
        r@ == envelope_of(provider, data_view(outcome)),
        r.provider == provider,
        outcome matches Ok(v) ==> r.data == v,
{
    match outcome {
        Ok(data) => AIActionResponse::succeeded(provider, data),
        Err(e) => {
            let message = e.message();
            AIActionResponse::failed(provider, message.as_str())
        },
    }
}

/// Turns the parser's verdict on a completion into the outcome of the action.
pub fn completion_result(parsed: Result<serde_json::Value, String>) -> (r: Result<
    serde_json::Value,
    AppError,
>)
    ensures
        data_view(r) == completion_outcome(
            match parsed {
                Ok(v) => Ok(json_model(v)),
                Err(e) => Err(e@),
            },
        ),
        parsed matches Ok(v) ==> r == Ok::<serde_json::Value, AppError>(v),
{
    match parsed {
        Ok(v) => Ok(v),
        Err(e) => {
            let mut message = String::from_str(UNPARSABLE_COMPLETION);
            message.append(e.as_str());
            Err(AppError::ExternalServiceError(message))
        },
    }
}

/// Reads a completion as JSON.
pub fn parse_completion(text: &str) -> (r: Result<serde_json::Value, AppError>)
    ensures
        data_view(r) == completion_outcome(json_parse(text@)),
{
    let parsed = match parse_json(text) {
        Ok(v) => Ok(v),
        Err(e) => Err(error_text(&e)),
    };
    completion_result(parsed)
}

/// Reads the reply with `client` and wraps what it yields.
pub fn conclude_action<T: AIClient>(client: &T, provider: AIProvider, reply: &HttpReply) -> (r:
    AIActionResponse)
    ensures
        r@ == envelope_of(
            provider,
            action_outcome(reply_outcome(client.client_view().provider, reply@)),
        ),
        r.provider == provider,
{
    let outcome = match client.read_reply(reply) {
        Ok(text) => parse_completion(text.as_str()),
        Err(e) => Err(e),
    };
    envelope_for(provider, outcome)
}

/// The service: at most one client per provider, made once and never changed.
pub struct AIService {
    gemini_client: Option<GeminiClient>,
    groq_client: Option<GroqClient>,
}

/// What a request comes to before anything is sent: the call to make, or the
/// refusal. A missing key is found first, then a request that is not well formed.
pub open spec fn planned(client: Option<ClientView>, request: AIActionRequestView) -> Result<
    HttpCallView,
    AppErrorView,
> {
    match client {
        None => Err(AppErrorView::ConfigurationError(missing_key_text(request.provider))),
        Some(c) => if !request.well_formed() {
            Err(AppErrorView::ValidationError(INPUT_REQUIRED@))
        } else {
            Ok(
                client_call(
                    c,
                    prompt_text(request.action, request.input, request.parameters),
                    action_temperature(request.action),
                ),
            )
        },
    }
}

/// What a request comes to once the provider has replied: the envelope, or the
/// refusal that [`planned`] gives.
pub open spec fn processed(
    client: Option<ClientView>,
    request: AIActionRequestView,
    reply: HttpReplyView,
) -> Result<AIActionResponseView, AppErrorView> {
    match planned(client, request) {
        Err(e) => Err(e),
        Ok(_) => Ok(
            envelope_of(request.provider, action_outcome(reply_outcome(request.provider, reply))),
        ),
    }
}

/// A planned call as a view of the executable result.
pub open spec fn plan_view(r: Result<HttpCall, AppError>) -> Result<HttpCallView, AppErrorView> {
    match r {
        Ok(call) => Ok(call@),
        Err(e) => Err(e@),
    }
}

/// A processed request as a view of the executable result.
pub open spec fn response_view(r: Result<AIActionResponse, AppError>) -> Result<
    AIActionResponseView,
    AppErrorView,
> {
    match r {
        Ok(response) => Ok(response@),
        Err(e) => Err(e@),
    }
}

impl AIService {
    /// The client that serves a provider, where its key was configured.
    pub closed spec fn client(&self, provider: AIProvider) -> Option<ClientView> {
        match provider {
            AIProvider::Gemini => match self.gemini_client {
                Some(c) => Some(c.client_view()),
                None => None,
            },
            AIProvider::Groq => match self.groq_client {
                Some(c) => Some(c.client_view()),
                None => None,
            },
        }
    }

    /// A service with a client for each provider whose key is given, each at its
    /// provider's public address.
    pub fn new(gemini_api_key: Option<String>, groq_api_key: Option<String>) -> (service: AIService)
        ensures
            service.client(AIProvider::Gemini) == (match gemini_api_key {
                Some(key) => Some(
                    ClientView {
                        provider: AIProvider::Gemini,
                        api_key: key@,
                        base_url: crate::gemini::GEMINI_BASE_URL@,
                    },
                ),
                None => None,
            }),
            service.client(AIProvider::Groq) == (match groq_api_key {
                Some(key) => Some(
                    ClientView {
                        provider: AIProvider::Groq,
                        api_key: key@,
                        base_url: crate::groq::GROQ_BASE_URL@,
                    },
                ),
                None => None,
            }),
    {
        let gemini_client = match gemini_api_key {
            Some(key) => Some(GeminiClient::new(key)),
            None => None,
        };
        let groq_client = match groq_api_key {
            Some(key) => Some(GroqClient::new(key)),
            None => None,
        };
        AIService { gemini_client, groq_client }
    }

    /// Whether the key of a provider was configured.
    pub fn is_configured(&self, provider: AIProvider) -> (b: bool)
        ensures
            b == (self.client(provider) is Some),
    {
        match provider {
            AIProvider::Gemini => self.gemini_client.is_some(),
            AIProvider::Groq => self.groq_client.is_some(),
        }
    }

    /// Resolves a request to the one operation of `client` that serves its action,
    /// reading the action's own parameters out of the open map.
    pub fn execute_action<T: AIClient>(&self, client: &T, request: &AIActionRequest) -> (call:
        HttpCall)
        ensures
            call@ == client_call(
                client.client_view(),
                prompt_text(request@.action, request@.input, request@.parameters),
                action_temperature(request@.action),
            ),
    {
        let parameters = request.parameters.as_ref();
        assert(optional_model(parameters) == request@.parameters);
        match request.action {
            ActionType::ExtractSkills => client.extract_skills(request.input.as_str()),
            ActionType::GenerateRoadmap => {
                let current_skills = parameter_text(parameters, "current_skills");
                let timeframe_months = parameter_number(parameters, "timeframe_months");
                let learning_hours_per_week = parameter_number(parameters, "learning_hours_per_week");
                client.generate_roadmap(
                    request.input.as_str(),
                    current_skills,
                    timeframe_months,
                    learning_hours_per_week,
                )
            },
            ActionType::AskQuestion => {
                let context = parameter_text(parameters, "context");
                client.answer_question(request.input.as_str(), context)
            },
            ActionType::GenerateContent => {
                let content_type = content_type_parameter(parameters);
                client.generate_content(content_type, request.input.as_str(), parameters)
            },
        }
    }

    /// Says which call serves a request. A request for a provider without a key is
    /// refused as a configuration error and a request without input as a
    /// validation error; in both cases there is no call to make.
    pub fn plan_action(&self, request: &AIActionRequest) -> (r: Result<HttpCall, AppError>)
        ensures
            plan_view(r) == planned(self.client(request@.provider), request@),
            self.client(request@.provider) is None ==> r is Err && r->Err_0@ is ConfigurationError,
    {
        match request.provider {
            AIProvider::Gemini => match &self.gemini_client {
                None => Err(
                    AppError::ConfigurationError(String::from_str("Gemini API key not configured")),
                ),
                Some(client) => {
                    if request.input.as_str().is_empty() {
                        Err(AppError::ValidationError(String::from_str(INPUT_REQUIRED)))
                    } else {
                        Ok(self.execute_action(client, request))
                    }
                },
            },
            AIProvider::Groq => match &self.groq_client {
                None => Err(
                    AppError::ConfigurationError(String::from_str("Groq API key not configured")),
                ),
                Some(client) => {
                    if request.input.as_str().is_empty() {
                        Err(AppError::ValidationError(String::from_str(INPUT_REQUIRED)))
                    } else {
                        Ok(self.execute_action(client, request))
                    }
                },
            },
        }
    }

    /// Serves a request, given the provider's reply to the call that
    /// [`AIService::plan_action`] asked for. Whatever the reply, the result is an
    /// envelope that names the requested provider; only a request that was refused
    /// before the call is an error.
    pub fn process_action(&self, request: AIActionRequest, reply: &HttpReply) -> (r: Result<
        AIActionResponse,
        AppError,
    >)
        ensures
            response_view(r) == processed(self.client(request@.provider), request@, reply@),
            r matches Ok(response) ==> response.provider == request.provider,
            self.client(request@.provider) is None ==> r is Err && r->Err_0@ is ConfigurationError,
    {
        match request.provider {
            AIProvider::Gemini => match &self.gemini_client {
                None => Err(
                    AppError::ConfigurationError(String::from_str("Gemini API key not configured")),
                ),
                Some(client) => {
                    if request.input.as_str().is_empty() {
                        Err(AppError::ValidationError(String::from_str(INPUT_REQUIRED)))
                    } else {
                        Ok(conclude_action(client, request.provider, reply))
                    }
                },
            },
            AIProvider::Groq => match &self.groq_client {
                None => Err(
                    AppError::ConfigurationError(String::from_str("Groq API key not configured")),
                ),
                Some(client) => {
                    if request.input.as_str().is_empty() {
                        Err(AppError::ValidationError(String::from_str(INPUT_REQUIRED)))
                    } else {
                        Ok(conclude_action(client, request.provider, reply))
                    }
                },
            },
        }
    }
}

/// An envelope reports success exactly when the action yielded a value; then it
/// holds the value and no message. Otherwise it holds the failure's message
/// twice: as `message` and as the string `data.error`.
pub proof fn lemma_envelope_is_coherent(provider: AIProvider, outcome: Result<JsonModel, AppErrorView>)
    ensures
        ({
            let envelope = envelope_of(provider, outcome);
            &&& envelope.success == (outcome is Ok)
            &&& envelope.success == (envelope.message is None)
            &&& outcome matches Ok(data) ==> envelope.data == data
            &&& outcome matches Err(e) ==> envelope.message == Some(e.message())
                && text_member(envelope.data, "error"@) == Some(e.message())
        }),
{
}

/// Every envelope names the provider that was asked, whatever the outcome.
pub proof fn lemma_envelope_names_provider(
    provider: AIProvider,
    outcome: Result<JsonModel, AppErrorView>,
)
    ensures
        envelope_of(provider, outcome).provider == provider,
{
}

/// A request that is served yields an envelope for the requested provider,
/// whatever the action and whatever the provider replied.
pub proof fn lemma_served_request_names_provider(
    client: ClientView,
    request: AIActionRequestView,
    reply: HttpReplyView,
)
    requires
        request.well_formed(),
    ensures
        processed(Some(client), request, reply) is Ok,
        processed(Some(client), request, reply)->Ok_0.provider == request.provider,
{
}

/// Without the provider's key a request is refused as a configuration error,
/// both before the call and after it, so no call is ever planned for it.
pub proof fn lemma_missing_key_is_refused(request: AIActionRequestView, reply: HttpReplyView)
    ensures
        planned(None, request) == Err::<HttpCallView, AppErrorView>(
            AppErrorView::ConfigurationError(missing_key_text(request.provider)),
        ),
        processed(None, request, reply) == Err::<AIActionResponseView, AppErrorView>(
            AppErrorView::ConfigurationError(missing_key_text(request.provider)),
        ),
{
}

/// A completion that is not JSON yields a failure envelope: `success` is false,
/// and `data.error` is a non-empty string, the same as `message`.
pub proof fn lemma_unparsable_completion_fails(provider: AIProvider, text: Seq<char>)
    requires
        json_parse(text) is Err,
    ensures
        ({
            let envelope = envelope_of(provider, action_outcome(Ok(text)));
            &&& !envelope.success
            &&& envelope.message is Some
            &&& envelope.message->Some_0.len() > 0
            &&& text_member(envelope.data, "error"@) == envelope.message
        }),
{
    reveal_strlit("Failed to parse AI response: ");
    let complaint = json_parse(text)->Err_0;
    assert((UNPARSABLE_COMPLETION@ + complaint).len() > 0);
}

/// A reply whose status does not report success yields a failure envelope whose
/// message contains the status code in decimal.
pub proof fn lemma_rejected_call_names_status(provider: AIProvider, reply: HttpReplyView)
    requires
        refused_status(reply) is Some,
    ensures
        ({
            let envelope = envelope_of(provider, action_outcome(reply_outcome(provider, reply)));
            &&& !envelope.success
            &&& envelope.message is Some
            &&& contains_text(
                envelope.message->Some_0,
                decimal(refused_status(reply)->Some_0 as nat),
            )
            &&& text_member(envelope.data, "error"@) == envelope.message
        }),
{
    lemma_rejection_names_status(provider, reply);
}

} // verus!
