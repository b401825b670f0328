//! The HTTP exchange as plain data: the call that a client wants made, and what
//! came back. Nothing here touches the network; whoever runs the exchange turns an
//! [`HttpCall`] into a request and the outcome into an [`HttpReply`].

use vstd::prelude::*;
use vstd::string::StringExecFns;
use crate::text::{decimal, decimal_string};

verus! {

/// A sampling temperature, in tenths: `Temperature { tenths: 7 }` is 0.7.
#[derive(Debug, Clone, Copy, PartialEq, Eq, Structural)]
pub struct Temperature {
    pub tenths: u8,
}

/// The temperature of a call that names none: 0.7.
pub open spec fn default_temperature() -> Temperature {
    Temperature { tenths: 7 }
}

/// The text of an optional string.
pub open spec fn optional_string_view(s: Option<String>) -> Option<Seq<char>> {
    match s {
        Some(t) => Some(t@),
        None => None,
    }
}

/// One piece of text in a Gemini request.
#[derive(Debug)]
pub struct Part {
    pub text: String,
}

impl View for Part {
    type V = Seq<char>;

    open spec fn view(&self) -> Seq<char> {
        self.text@
    }
}

/// One content entry of a Gemini request: a list of parts.
#[derive(Debug)]
pub struct Content {
    pub parts: Vec<Part>,
}

impl View for Content {
    type V = Seq<Seq<char>>;

    open spec fn view(&self) -> Seq<Seq<char>> {
        self.parts@.map_values(|p: Part| p@)
    }
}

/// How Gemini is to generate.
#[derive(Debug)]
pub struct GenerationConfig {
    pub temperature: Temperature,
    /// Set to `application/json` to have the answer constrained to JSON.
    pub response_mime_type: Option<String>,
}

/// A [`GenerationConfig`] as the contracts see it.
pub ghost struct GenerationConfigView {
    pub temperature: Temperature,
    pub response_mime_type: Option<Seq<char>>,
}

impl View for GenerationConfig {
    type V = GenerationConfigView;

    open spec fn view(&self) -> GenerationConfigView {
        GenerationConfigView {
            temperature: self.temperature,
            response_mime_type: optional_string_view(self.response_mime_type),
        }
    }
}

/// The body of a Gemini `generateContent` request.
#[derive(Debug)]
pub struct GeminiRequest {
    pub contents: Vec<Content>,
    pub generation_config: Option<GenerationConfig>,
}

/// A [`GeminiRequest`] as the contracts see it: the texts of the parts of each
/// content entry, and the configuration.
pub ghost struct GeminiRequestView {
    pub contents: Seq<Seq<Seq<char>>>,
    pub generation_config: Option<GenerationConfigView>,
}

impl View for GeminiRequest {
    type V = GeminiRequestView;

    open spec fn view(&self) -> GeminiRequestView {
        GeminiRequestView {
            contents: self.contents@.map_values(|c: Content| c@),
            generation_config: match self.generation_config {
                Some(g) => Some(g@),
                None => None,
            },
        }
    }
}

/// One chat message of a Groq request.
#[derive(Debug)]
pub struct Message {
    pub role: String,
    pub content: String,
}

/// A [`Message`] as the contracts see it.
pub ghost struct MessageView {
    pub role: Seq<char>,
    pub content: Seq<char>,
}

impl View for Message {
    type V = MessageView;

    open spec fn view(&self) -> MessageView {
        MessageView { role: self.role@, content: self.content@ }
    }
}

/// The format in which Groq is to answer.
#[derive(Debug)]
pub struct ResponseFormat {
    /// Sent under the name `type`.
    pub format_type: String,
}

/// The body of a Groq chat-completions request.
#[derive(Debug)]
pub struct GroqRequest {
    pub model: String,
    pub messages: Vec<Message>,
    pub temperature: Temperature,
    pub response_format: Option<ResponseFormat>,
}

/// A [`GroqRequest`] as the contracts see it.
pub ghost struct GroqRequestView {
    pub model: Seq<char>,
    pub messages: Seq<MessageView>,
    pub temperature: Temperature,
    /// The type of the response format, where one is asked for.
    pub response_format: Option<Seq<char>>,
}

impl View for GroqRequest {
    type V = GroqRequestView;

    open spec fn view(&self) -> GroqRequestView {
        GroqRequestView {
            model: self.model@,
            messages: self.messages@.map_values(|m: Message| m@),
            temperature: self.temperature,
            response_format: match self.response_format {
                Some(f) => Some(f.format_type@),
                None => None,
            },
        }
    }
}

/// The body of a call, in the shape of the provider it goes to.
#[derive(Debug)]
pub enum RequestBody {
    Gemini(GeminiRequest),
    Groq(GroqRequest),
}

/// A [`RequestBody`] as the contracts see it.
pub ghost enum RequestBodyView {
    Gemini(GeminiRequestView),
    Groq(GroqRequestView),
}

impl View for RequestBody {
    type V = RequestBodyView;

    open spec fn view(&self) -> RequestBodyView {
        match self {
            RequestBody::Gemini(r) => RequestBodyView::Gemini(r@),
            RequestBody::Groq(r) => RequestBodyView::Groq(r@),
        }
    }
}

/// One HTTP POST that a client wants made, with the body sent as JSON.
#[derive(Debug)]
pub struct HttpCall {
    pub url: String,
    /// The value of the `Authorization` header, where the provider wants one.
    pub authorization: Option<String>,
    pub body: RequestBody,
}

/// An [`HttpCall`] as the contracts see it.
pub ghost struct HttpCallView {
    pub url: Seq<char>,
    pub authorization: Option<Seq<char>>,
    pub body: RequestBodyView,
}

impl View for HttpCall {
    type V = HttpCallView;

    open spec fn view(&self) -> HttpCallView {
        HttpCallView {
            url: self.url@,
            authorization: optional_string_view(self.authorization),
            body: self.body@,
        }
    }
}

/// What became of a call.
#[derive(Debug)]
pub enum HttpReply {
    /// The call could not be made or did not complete; the text says why.
    Failed(String),
    /// The provider answered with this status and this body.
    Answered { status: u16, body: String },
    /// The provider answered with this status, but its body could not be read;
    /// the text says why.
    Unreadable { status: u16, error: String },
}

/// An [`HttpReply`] as the contracts see it.
pub ghost enum HttpReplyView {
    Failed(Seq<char>),
    Answered { status: u16, body: Seq<char> },
    Unreadable { status: u16, error: Seq<char> },
}

impl View for HttpReply {
    type V = HttpReplyView;

    open spec fn view(&self) -> HttpReplyView {
        match self {
            HttpReply::Failed(e) => HttpReplyView::Failed(e@),
            HttpReply::Answered { status, body } => HttpReplyView::Answered {
                status: *status,
                body: body@,
            },
            HttpReply::Unreadable { status, error } => HttpReplyView::Unreadable {
                status: *status,
                error: error@,
            },
        }
    }
}

/// A status from 200 to 299 reports success.
pub open spec fn is_success(status: u16) -> bool {
    200 <= status && status < 300
}

/// Whether a status reports success.
pub fn status_is_success(status: u16) -> (b: bool)
    ensures
        b == is_success(status),
{
    200 <= status && status < 300
}

/// The reason phrase that `http` knows for a status code: what
/// `StatusCode::canonical_reason` returns for the `StatusCode` that
/// `StatusCode::from_u16` makes of the number, and `None` where either has none.
pub uninterp spec fn http_reason(status: u16) -> Option<Seq<char>>;

/// `reqwest::StatusCode::from_u16`, then `canonical_reason` on the code it made.
/// The contract only names what comes back.
#[verifier::external_body]
fn canonical_reason(status: u16) -> (r: Option<&'static str>)
    ensures
        (match r {
            Some(s) => http_reason(status) == Some(s@),
            None => http_reason(status) is None,
        }),
{
    match reqwest::StatusCode::from_u16(status) {
        Ok(code) => code.canonical_reason(),
        Err(_) => None,
    }
}

/// The phrase that stands for a status without a known reason.
pub const UNKNOWN_STATUS: &'static str = "<unknown status code>";

/// A status as it is shown, given the reason phrase that is known for it: the
/// number in decimal, a space, and the phrase.
pub open spec fn status_line_with(status: u16, reason: Option<Seq<char>>) -> Seq<char> {
    decimal(status as nat) + " "@ + match reason {
        Some(r) => r,
        None => UNKNOWN_STATUS@,
    }
}

/// A status as it is shown.
pub open spec fn status_line(status: u16) -> Seq<char> {
    status_line_with(status, http_reason(status))
}

/// Writes a status with the given reason phrase.
pub fn show_status_with(status: u16, reason: Option<&str>) -> (s: String)
    ensures
        s@ == status_line_with(
            status,
            match reason {
                Some(r) => Some(r@),
                None => None,
            },
        ),
{
    let mut s = decimal_string(status as u64);
    s.append(" ");
    match reason {
        Some(r) => s.append(r),
        None => s.append(UNKNOWN_STATUS),
    }
    s
}

/// Writes a status as it is shown.
pub fn show_status(status: u16) -> (s: String)
    ensures
        s@ == status_line(status),
{
    show_status_with(status, canonical_reason(status))
}

} // verus!
