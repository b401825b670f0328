use career_ai::gemini::GeminiClient;
use career_ai::groq::GroqClient;
use career_ai::http::{HttpCall, RequestBody, Temperature};
use career_ai::prompts::{content_prompt, extract_skills_prompt, question_prompt, roadmap_prompt};
use career_ai::service::AIClient;

fn gemini_text(call: &HttpCall) -> String {
    match &call.body {
        RequestBody::Gemini(request) => {
            assert_eq!(request.contents.len(), 1);
            assert_eq!(request.contents[0].parts.len(), 1);
            request.contents[0].parts[0].text.clone()
        }
        RequestBody::Groq(_) => panic!("a Gemini client made a Groq body"),
    }
}

fn gemini_settings(call: &HttpCall) -> (u8, Option<String>) {
    match &call.body {
        RequestBody::Gemini(request) => {
            let config = request.generation_config.as_ref().unwrap();
            (config.temperature.tenths, config.response_mime_type.clone())
        }
        RequestBody::Groq(_) => panic!("a Gemini client made a Groq body"),
    }
}

fn groq_text(call: &HttpCall) -> String {
    match &call.body {
        RequestBody::Groq(request) => {
            assert_eq!(request.messages.len(), 1);
            assert_eq!(request.messages[0].role, "user");
            request.messages[0].content.clone()
        }
        RequestBody::Gemini(_) => panic!("a Groq client made a Gemini body"),
    }
}

fn groq_settings(call: &HttpCall) -> (String, u8, Option<String>) {
    match &call.body {
        RequestBody::Groq(request) => (
            request.model.clone(),
            request.temperature.tenths,
            request.response_format.as_ref().map(|f| f.format_type.clone()),
        ),
        RequestBody::Gemini(_) => panic!("a Groq client made a Gemini body"),
    }
}

#[test]
fn gemini_generate_with_defaults() {
    let client = GeminiClient::new("KEY-1".to_string());
    let call = client.generate("Say hi", None, None, false);
    assert_eq!(
        call.url,
        "https://generativelanguage.googleapis.com/v1beta/models/gemini-2.0-flash:generateContent?key=KEY-1"
    );
    assert_eq!(call.authorization, None);
    assert_eq!(gemini_text(&call), "Say hi");
    assert_eq!(gemini_settings(&call), (7, None));
}

#[test]
fn gemini_generate_with_model_temperature_and_json_mode() {
    let client = GeminiClient::new("k".to_string());
    let call = client.generate("p", Some("gemini-pro"), Some(Temperature { tenths: 12 }), true);
    assert_eq!(
        call.url,
        "https://generativelanguage.googleapis.com/v1beta/models/gemini-pro:generateContent?key=k"
    );
    assert_eq!(gemini_settings(&call), (12, Some("application/json".to_string())));
    assert_eq!(gemini_text(&call), "p");
}

#[test]
fn groq_generate_with_defaults() {
    let client = GroqClient::new("KEY-2".to_string());
    let call = client.generate("Say hi", None, None, false);
    assert_eq!(call.url, "https://api.groq.com/openai/v1/chat/completions");
    assert_eq!(call.authorization, Some("Bearer KEY-2".to_string()));
    assert_eq!(groq_text(&call), "Say hi");
    assert_eq!(groq_settings(&call), ("llama-3.3-70b-versatile".to_string(), 7, None));
}

#[test]
fn groq_generate_with_model_temperature_and_json_mode() {
    let client = GroqClient::new("k".to_string());
    let call = client.generate("p", Some("mixtral"), Some(Temperature { tenths: 0 }), true);
    assert_eq!(call.url, "https://api.groq.com/openai/v1/chat/completions");
    assert_eq!(
        groq_settings(&call),
        ("mixtral".to_string(), 0, Some("json_object".to_string()))
    );
}

#[test]
fn gemini_operations_use_their_templates_and_temperatures() {
    let client = GeminiClient::new("k".to_string());
    let params: serde_json::Value = serde_json::from_str(r#"{"tone":"warm"}"#).unwrap();

    let call = client.extract_skills("cv text");
    assert_eq!(gemini_text(&call), extract_skills_prompt("cv text"));
    assert_eq!(gemini_settings(&call), (3, Some("application/json".to_string())));

    let call = client.generate_roadmap("Rust", Some("C"));
    assert_eq!(gemini_text(&call), roadmap_prompt("Rust", Some("C")));
    assert_eq!(gemini_settings(&call), (7, Some("application/json".to_string())));

    let call = client.answer_question("why?", None);
    assert_eq!(gemini_text(&call), question_prompt("why?", None));
    assert_eq!(gemini_settings(&call), (8, Some("application/json".to_string())));

    let call = client.generate_content("bio", "me", Some(&params));
    assert_eq!(gemini_text(&call), content_prompt("bio", "me", Some(&params)));
    assert_eq!(gemini_settings(&call), (8, Some("application/json".to_string())));
    assert!(call.url.ends_with("/models/gemini-2.0-flash:generateContent?key=k"));
}

#[test]
fn groq_operations_use_their_templates_and_temperatures() {
    let client = GroqClient::new("k".to_string());
    let json = Some("json_object".to_string());
    let model = "llama-3.3-70b-versatile".to_string();

    let call = client.extract_skills("cv text");
    assert_eq!(groq_text(&call), extract_skills_prompt("cv text"));
    assert_eq!(groq_settings(&call), (model.clone(), 3, json.clone()));

    let call = client.generate_roadmap("Rust", None);
    assert_eq!(groq_text(&call), roadmap_prompt("Rust", None));
    assert_eq!(groq_settings(&call), (model.clone(), 7, json.clone()));

    let call = client.answer_question("why?", Some("ctx"));
    assert_eq!(groq_text(&call), question_prompt("why?", Some("ctx")));
    assert_eq!(groq_settings(&call), (model.clone(), 8, json.clone()));

    let call = client.generate_content("bio", "me", None);
    assert_eq!(groq_text(&call), content_prompt("bio", "me", None));
    assert_eq!(groq_settings(&call), (model, 8, json));
    assert_eq!(call.authorization, Some("Bearer k".to_string()));
}

fn roadmap_through<T: AIClient>(client: &T) -> HttpCall {
    client.generate_roadmap("Rust", Some("C"), Some(6), Some(10))
}

#[test]
fn both_clients_serve_the_shared_operations() {
    let gemini = GeminiClient::new("g".to_string());
    let groq = GroqClient::new("q".to_string());
    assert_eq!(gemini_text(&roadmap_through(&gemini)), roadmap_prompt("Rust", Some("C")));
    assert_eq!(groq_text(&roadmap_through(&groq)), roadmap_prompt("Rust", Some("C")));
    assert_eq!(
        gemini_text(&AIClient::extract_skills(&gemini, "cv")),
        groq_text(&AIClient::extract_skills(&groq, "cv"))
    );
}
