use career_ai::errors::AppError;
use career_ai::http::{HttpReply, RequestBody};
use career_ai::prompts::build_prompt;
use career_ai::service::{completion_result, envelope_for, parse_completion, AIService};
use career_ai::types::{AIActionRequest, AIActionResponse, AIProvider, ActionType};
use serde_json::Value;

fn parse(text: &str) -> Value {
    serde_json::from_str(text).unwrap()
}

fn request(action: ActionType, provider: AIProvider, input: &str) -> AIActionRequest {
    AIActionRequest { action, provider, input: input.to_string(), parameters: None }
}

fn service() -> AIService {
    AIService::new(Some("gemini-key".to_string()), Some("groq-key".to_string()))
}

/// The reply of a provider whose first completion is `text`.
fn completion(provider: AIProvider, text: &str) -> HttpReply {
    let quoted = serde_json::to_string(text).unwrap();
    let body = match provider {
        AIProvider::Gemini => {
            format!(r#"{{"candidates":[{{"content":{{"parts":[{{"text":{}}}]}}}}]}}"#, quoted)
        }
        AIProvider::Groq => format!(r#"{{"choices":[{{"message":{{"content":{}}}}}]}}"#, quoted),
    };
    HttpReply::Answered { status: 200, body }
}

fn error_of(response: &AIActionResponse) -> String {
    match &response.data {
        Value::Object(fields) => {
            assert_eq!(fields.len(), 1);
            fields.get("error").unwrap().as_str().unwrap().to_string()
        }
        other => panic!("not an object: {}", other),
    }
}

const ACTIONS: [ActionType; 4] = [
    ActionType::ExtractSkills,
    ActionType::GenerateRoadmap,
    ActionType::AskQuestion,
    ActionType::GenerateContent,
];

const PROVIDERS: [AIProvider; 2] = [AIProvider::Gemini, AIProvider::Groq];

#[test]
fn extraction_with_a_good_answer_succeeds() {
    let text = r#"{"technical_skills":[{"name":"Python"}],"roles":[]}"#;
    let req = request(
        ActionType::ExtractSkills,
        AIProvider::Gemini,
        "Senior Python developer, 5 years, AWS",
    );
    let response = service()
        .process_action(req, &completion(AIProvider::Gemini, text))
        .unwrap();
    assert!(response.success);
    assert_eq!(response.data, parse(text));
    assert_eq!(response.provider, AIProvider::Gemini);
    assert_eq!(response.message, None);
}

#[test]
fn extraction_with_http_500_fails() {
    let req = request(
        ActionType::ExtractSkills,
        AIProvider::Gemini,
        "Senior Python developer, 5 years, AWS",
    );
    let reply = HttpReply::Answered { status: 500, body: "upstream down".to_string() };
    let response = service().process_action(req, &reply).unwrap();
    assert!(!response.success);
    assert!(!error_of(&response).is_empty());
    let message = response.message.clone().unwrap();
    assert!(message.contains("500"));
    assert_eq!(message, "Gemini API returned 500 Internal Server Error: upstream down");
    assert_eq!(error_of(&response), message);
    assert_eq!(response.provider, AIProvider::Gemini);
}

#[test]
fn envelope_names_the_requested_provider() {
    let svc = service();
    for action in ACTIONS {
        for provider in PROVIDERS {
            let good = completion(provider, r#"{"ok":true}"#);
            let response = svc.process_action(request(action, provider, "x"), &good).unwrap();
            assert_eq!(response.provider, provider);
            assert!(response.success);

            let bad = HttpReply::Answered { status: 429, body: String::new() };
            let response = svc.process_action(request(action, provider, "x"), &bad).unwrap();
            assert_eq!(response.provider, provider);
            assert!(!response.success);

            let lost = HttpReply::Failed("timeout".to_string());
            let response = svc.process_action(request(action, provider, "x"), &lost).unwrap();
            assert_eq!(response.provider, provider);
            assert!(!response.success);
        }
    }
}

#[test]
fn missing_key_is_a_configuration_error() {
    let only_groq = AIService::new(None, Some("q".to_string()));
    let only_gemini = AIService::new(Some("g".to_string()), None);
    let reply = completion(AIProvider::Gemini, "{}");
    for action in ACTIONS {
        match only_groq.plan_action(&request(action, AIProvider::Gemini, "x")) {
            Err(AppError::ConfigurationError(m)) => assert_eq!(m, "Gemini API key not configured"),
            other => panic!("{:?}", other),
        }
        match only_groq.process_action(request(action, AIProvider::Gemini, "x"), &reply) {
            Err(AppError::ConfigurationError(m)) => assert_eq!(m, "Gemini API key not configured"),
            other => panic!("{:?}", other),
        }
        match only_gemini.plan_action(&request(action, AIProvider::Groq, "x")) {
            Err(AppError::ConfigurationError(m)) => assert_eq!(m, "Groq API key not configured"),
            other => panic!("{:?}", other),
        }
        match only_gemini.process_action(request(action, AIProvider::Groq, "x"), &reply) {
            Err(AppError::ConfigurationError(m)) => assert_eq!(m, "Groq API key not configured"),
            other => panic!("{:?}", other),
        }
        assert!(only_groq.plan_action(&request(action, AIProvider::Groq, "x")).is_ok());
        assert!(only_gemini.plan_action(&request(action, AIProvider::Gemini, "x")).is_ok());
    }
}

#[test]
fn missing_key_is_found_before_missing_input() {
    let none = AIService::new(None, None);
    assert!(!none.is_configured(AIProvider::Gemini));
    assert!(!none.is_configured(AIProvider::Groq));
    match none.plan_action(&request(ActionType::AskQuestion, AIProvider::Groq, "")) {
        Err(AppError::ConfigurationError(_)) => {}
        other => panic!("{:?}", other),
    }
}

#[test]
fn empty_input_is_a_validation_error() {
    let svc = service();
    assert!(svc.is_configured(AIProvider::Gemini));
    assert!(svc.is_configured(AIProvider::Groq));
    for provider in PROVIDERS {
        match svc.plan_action(&request(ActionType::ExtractSkills, provider, "")) {
            Err(AppError::ValidationError(m)) => assert_eq!(m, "input is required"),
            other => panic!("{:?}", other),
        }
        let reply = completion(provider, "{}");
        match svc.process_action(request(ActionType::ExtractSkills, provider, ""), &reply) {
            Err(AppError::ValidationError(m)) => assert_eq!(m, "input is required"),
            other => panic!("{:?}", other),
        }
    }
}

#[test]
fn completion_that_is_not_json_fails_the_call() {
    let svc = service();
    for provider in PROVIDERS {
        let reply = completion(provider, "Sure! Here is your JSON: {");
        let response = svc
            .process_action(request(ActionType::AskQuestion, provider, "q"), &reply)
            .unwrap();
        assert!(!response.success);
        let error = error_of(&response);
        assert!(!error.is_empty());
        let complaint = serde_json::from_str::<Value>("Sure! Here is your JSON: {")
            .unwrap_err()
            .to_string();
        assert_eq!(error, format!("Failed to parse AI response: {}", complaint));
        assert_eq!(response.message, Some(error));
        assert_eq!(response.provider, provider);
    }
}

#[test]
fn completion_may_be_any_json_value() {
    let svc = service();
    let reply = completion(AIProvider::Groq, " [1, \"two\", null] ");
    let response = svc
        .process_action(request(ActionType::GenerateContent, AIProvider::Groq, "q"), &reply)
        .unwrap();
    assert!(response.success);
    assert_eq!(response.data, parse(r#"[1,"two",null]"#));
}

#[test]
fn plan_action_asks_the_requested_provider() {
    let svc = service();
    let params = parse(r#"{"current_skills":"SQL","timeframe_months":6}"#);
    let mut req = request(ActionType::GenerateRoadmap, AIProvider::Groq, "Data engineering");
    req.parameters = Some(params.clone());
    let call = svc.plan_action(&req).unwrap();
    assert_eq!(call.url, "https://api.groq.com/openai/v1/chat/completions");
    assert_eq!(call.authorization, Some("Bearer groq-key".to_string()));
    match &call.body {
        RequestBody::Groq(body) => {
            assert_eq!(body.model, "llama-3.3-70b-versatile");
            assert_eq!(body.temperature.tenths, 7);
            assert_eq!(body.messages.len(), 1);
            assert_eq!(
                body.messages[0].content,
                build_prompt(ActionType::GenerateRoadmap, "Data engineering", Some(&params))
            );
            assert!(body.messages[0].content.contains("\n\nCurrent skills: SQL\n\n"));
        }
        RequestBody::Gemini(_) => panic!("wrong wire shape"),
    }

    req.provider = AIProvider::Gemini;
    let call = svc.plan_action(&req).unwrap();
    assert_eq!(
        call.url,
        "https://generativelanguage.googleapis.com/v1beta/models/gemini-2.0-flash:generateContent?key=gemini-key"
    );
    assert_eq!(call.authorization, None);
    match &call.body {
        RequestBody::Gemini(body) => {
            assert_eq!(
                body.contents[0].parts[0].text,
                build_prompt(ActionType::GenerateRoadmap, "Data engineering", Some(&params))
            );
        }
        RequestBody::Groq(_) => panic!("wrong wire shape"),
    }
}

#[test]
fn plan_action_picks_temperature_by_action() {
    let svc = service();
    let expected = [3u8, 7, 8, 8];
    for (action, tenths) in ACTIONS.iter().zip(expected) {
        let call = svc.plan_action(&request(*action, AIProvider::Gemini, "x")).unwrap();
        match &call.body {
            RequestBody::Gemini(body) => {
                let config = body.generation_config.as_ref().unwrap();
                assert_eq!(config.temperature.tenths, tenths);
                assert_eq!(config.response_mime_type, Some("application/json".to_string()));
            }
            RequestBody::Groq(_) => panic!("wrong wire shape"),
        }
    }
}

#[test]
fn envelope_for_success_and_failure() {
    let data = parse(r#"{"a":[1,2]}"#);
    let ok = envelope_for(AIProvider::Groq, Ok(data.clone()));
    assert!(ok.success);
    assert_eq!(ok.data, data);
    assert_eq!(ok.provider, AIProvider::Groq);
    assert_eq!(ok.message, None);

    let failed = envelope_for(
        AIProvider::Gemini,
        Err(AppError::ExternalServiceError("No response from Gemini".to_string())),
    );
    assert!(!failed.success);
    assert_eq!(failed.data, parse(r#"{"error":"No response from Gemini"}"#));
    assert_eq!(failed.provider, AIProvider::Gemini);
    assert_eq!(failed.message, Some("No response from Gemini".to_string()));
}

#[test]
fn envelope_constructors() {
    let ok = AIActionResponse::succeeded(AIProvider::Gemini, Value::Null);
    assert!(ok.success);
    assert_eq!(ok.data, Value::Null);
    let failed = AIActionResponse::failed(AIProvider::Groq, "a \"quoted\" reason");
    assert!(!failed.success);
    assert_eq!(error_of(&failed), "a \"quoted\" reason");
    assert_eq!(failed.message, Some("a \"quoted\" reason".to_string()));
    assert_eq!(failed.provider, AIProvider::Groq);
}

#[test]
fn completion_result_maps_the_parser_verdict() {
    let value = parse("[true]");
    assert_eq!(completion_result(Ok(value.clone())).unwrap(), value);
    match completion_result(Err("expected value at line 1 column 1".to_string())) {
        Err(AppError::ExternalServiceError(m)) => {
            assert_eq!(m, "Failed to parse AI response: expected value at line 1 column 1")
        }
        other => panic!("{:?}", other),
    }
}

#[test]
fn parse_completion_reads_json() {
    assert_eq!(parse_completion(r#"{"k":"v"}"#).unwrap(), parse(r#"{"k":"v"}"#));
    assert_eq!(parse_completion("12").unwrap(), parse("12"));
    match parse_completion("{\"k\":") {
        Err(AppError::ExternalServiceError(m)) => {
            assert!(m.starts_with("Failed to parse AI response: "));
            assert!(m.len() > "Failed to parse AI response: ".len());
        }
        other => panic!("{:?}", other),
    }
    assert!(parse_completion("{} trailing").is_err());
}

#[test]
fn error_message_is_the_carried_text() {
    assert_eq!(AppError::ConfigurationError("a".to_string()).message(), "a");
    assert_eq!(AppError::ExternalServiceError("b".to_string()).message(), "b");
    assert_eq!(AppError::ValidationError(String::new()).message(), "");
}
