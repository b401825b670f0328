use career_ai::content::{
    mentor_request, payload_platform, projects_request, read_projects_payload,
    suggestions_request, summary_request, UserProfile,
};
use career_ai::payload::{
    join_texts, payload_flag, payload_number, payload_provider, provider_from_name,
    provider_label, require_success, required_text,
};
use career_ai::progress::{
    collect_phases, progress_statement, ProgressUpdate, ProgressValues, read_progress_update,
};
use career_ai::roadmap::{
    job_application_timing, project_suggestions, read_roadmap_payload, roadmap_request,
    roadmap_title,
};
use career_ai::skills::{
    collect_names, has_text, merge_unique, read_skills_payload, role_names, skills_request,
    technical_skill_names,
};
use career_ai::errors::AppError;
use career_ai::types::{AIActionResponse, AIProvider, ActionType};
use serde_json::Value;

fn parse(text: &str) -> Value {
    serde_json::from_str(text).unwrap()
}

fn texts(items: &[&str]) -> Vec<String> {
    items.iter().map(|s| s.to_string()).collect()
}

fn validation(error: AppError) -> String {
    match error {
        AppError::ValidationError(m) => m,
        other => panic!("not a validation error: {:?}", other),
    }
}

fn profile() -> UserProfile {
    UserProfile {
        skills: texts(&["Rust", "SQL"]),
        projects: texts(&["a compiler"]),
        target_roles: texts(&["Backend Engineer", "SRE"]),
        education_level: None,
        experience_level: "Some(\"junior\")".to_string(),
    }
}

#[test]
fn provider_names() {
    assert_eq!(provider_from_name(Some("groq")), AIProvider::Groq);
    assert_eq!(provider_from_name(Some("gemini")), AIProvider::Gemini);
    assert_eq!(provider_from_name(Some("Groq")), AIProvider::Gemini);
    assert_eq!(provider_from_name(Some("")), AIProvider::Gemini);
    assert_eq!(provider_from_name(Some("groq ")), AIProvider::Gemini);
    assert_eq!(provider_from_name(None), AIProvider::Gemini);
    assert_eq!(provider_label(AIProvider::Gemini), "gemini");
    assert_eq!(provider_label(AIProvider::Groq), "groq");
    assert_eq!(provider_from_name(Some(provider_label(AIProvider::Groq))), AIProvider::Groq);
}

#[test]
fn payload_members_with_defaults() {
    let payload = parse(r#"{"provider":"groq","yes":true,"no":false,"n":7,"big":4294967303,"t":"x"}"#);
    assert_eq!(payload_provider(&payload), AIProvider::Groq);
    assert_eq!(payload_provider(&parse(r#"{"provider":1}"#)), AIProvider::Gemini);
    assert_eq!(payload_provider(&parse("[]")), AIProvider::Gemini);
    assert!(payload_flag(&payload, "yes", false));
    assert!(!payload_flag(&payload, "no", true));
    assert!(payload_flag(&payload, "absent", true));
    assert!(!payload_flag(&payload, "absent", false));
    assert!(payload_flag(&payload, "n", true));
    assert_eq!(payload_number(&payload, "n", 1), 7);
    assert_eq!(payload_number(&payload, "big", 1), 7);
    assert_eq!(payload_number(&payload, "t", 9), 9);
    assert_eq!(payload_number(&payload, "absent", 9), 9);
    assert_eq!(payload_platform(&payload), "linkedin");
    assert_eq!(payload_platform(&parse(r#"{"platform":"github"}"#)), "github");
}

#[test]
fn required_text_refuses_what_is_not_a_string() {
    let payload = parse(r#"{"question":"why?","n":1}"#);
    assert_eq!(required_text(&payload, "question", "question is required").unwrap(), "why?");
    assert_eq!(
        validation(required_text(&payload, "n", "n is required").unwrap_err()),
        "n is required"
    );
    assert_eq!(
        validation(required_text(&payload, "absent", "question is required").unwrap_err()),
        "question is required"
    );
}

#[test]
fn join_texts_puts_separators_between() {
    assert_eq!(join_texts(&texts(&[]), ", "), "");
    assert_eq!(join_texts(&texts(&["a"]), ", "), "a");
    assert_eq!(join_texts(&texts(&["a", "b", "c"]), ", "), "a, b, c");
    assert_eq!(join_texts(&texts(&["", ""]), "-"), "-");
    assert_eq!(join_texts(&texts(&["x", "y"]), "\n- "), "x\n- y");
}

#[test]
fn require_success_passes_and_fails() {
    let ok = AIActionResponse::succeeded(AIProvider::Gemini, Value::Null);
    assert!(require_success(&ok, "AI extraction failed").is_ok());
    let failed = AIActionResponse::failed(AIProvider::Gemini, "No response from Gemini");
    match require_success(&failed, "AI extraction failed") {
        Err(AppError::ExternalServiceError(m)) => assert_eq!(m, "No response from Gemini"),
        other => panic!("{:?}", other),
    }
    let silent = AIActionResponse {
        success: false,
        data: Value::Null,
        provider: AIProvider::Groq,
        message: None,
    };
    match require_success(&silent, "Roadmap generation failed") {
        Err(AppError::ExternalServiceError(m)) => assert_eq!(m, "Roadmap generation failed"),
        other => panic!("{:?}", other),
    }
}

#[test]
fn skills_payload_is_read_with_defaults() {
    let read = read_skills_payload(&parse(r#"{"cv_text":"my cv"}"#)).unwrap();
    assert_eq!(read.cv_text, "my cv");
    assert_eq!(read.provider, AIProvider::Gemini);
    assert!(!read.update_profile);
    let read = read_skills_payload(&parse(
        r#"{"cv_text":"","provider":"groq","update_profile":true}"#,
    ))
    .unwrap();
    assert_eq!(read.cv_text, "");
    assert_eq!(read.provider, AIProvider::Groq);
    assert!(read.update_profile);
    assert_eq!(
        validation(read_skills_payload(&parse(r#"{"provider":"groq"}"#)).unwrap_err()),
        "cv_text is required"
    );
    assert_eq!(
        validation(read_skills_payload(&parse(r#"{"cv_text":5}"#)).unwrap_err()),
        "cv_text is required"
    );
}

#[test]
fn skills_request_is_an_extraction() {
    let request = skills_request("my cv", AIProvider::Groq);
    assert_eq!(request.action, ActionType::ExtractSkills);
    assert_eq!(request.provider, AIProvider::Groq);
    assert_eq!(request.input, "my cv");
    assert_eq!(request.parameters, None);
}

#[test]
fn skill_and_role_names_are_taken_from_the_answer() {
    let data = parse(
        r#"{"technical_skills":[{"name":"Python","proficiency":"advanced"},"Docker",{"name":3},7,{"label":"x"},{"name":"Go"}],"roles":["Engineer",{"name":"Lead"},null,"SRE"]}"#,
    );
    assert_eq!(technical_skill_names(&data), texts(&["Python", "Docker", "Go"]));
    assert_eq!(role_names(&data), texts(&["Engineer", "SRE"]));
    assert_eq!(collect_names(&data, "roles", true), texts(&["Engineer", "Lead", "SRE"]));
    let other = parse(r#"{"technical_skills":"Python","roles":{}}"#);
    assert_eq!(technical_skill_names(&other), Vec::<String>::new());
    assert_eq!(role_names(&other), Vec::<String>::new());
    assert_eq!(technical_skill_names(&parse("[]")), Vec::<String>::new());
}

#[test]
fn merge_unique_appends_what_is_new() {
    assert_eq!(
        merge_unique(texts(&["Rust", "SQL"]), &texts(&["SQL", "Go", "Rust", "Go", "C"])),
        texts(&["Rust", "SQL", "Go", "C"])
    );
    assert_eq!(merge_unique(texts(&[]), &texts(&["a", "a"])), texts(&["a"]));
    assert_eq!(merge_unique(texts(&["a", "a"]), &texts(&[])), texts(&["a", "a"]));
    assert_eq!(merge_unique(texts(&["a"]), &texts(&["A"])), texts(&["a", "A"]));
    assert!(has_text(&texts(&["a", "b"]), &"b".to_string()));
    assert!(!has_text(&texts(&["a", "b"]), &"c".to_string()));
    assert!(!has_text(&texts(&[]), &String::new()));
}

#[test]
fn roadmap_payload_is_read_with_defaults() {
    let read = read_roadmap_payload(&parse(r#"{"target_role":"Full Stack Developer"}"#)).unwrap();
    assert_eq!(read.target_role, "Full Stack Developer");
    assert_eq!(read.timeframe_months, 6);
    assert_eq!(read.learning_hours_per_week, 10);
    assert_eq!(read.provider, AIProvider::Gemini);
    assert!(read.include_current_skills);
    let read = read_roadmap_payload(&parse(
        r#"{"tech_stack":"MERN","timeframe_months":12,"learning_hours_per_week":4,"provider":"groq","include_current_skills":false}"#,
    ))
    .unwrap();
    assert_eq!(read.target_role, "MERN");
    assert_eq!(read.timeframe_months, 12);
    assert_eq!(read.learning_hours_per_week, 4);
    assert_eq!(read.provider, AIProvider::Groq);
    assert!(!read.include_current_skills);
    let both = read_roadmap_payload(&parse(r#"{"target_role":"A","tech_stack":"B"}"#)).unwrap();
    assert_eq!(both.target_role, "A");
    assert_eq!(
        validation(read_roadmap_payload(&parse(r#"{"timeframe_months":3}"#)).unwrap_err()),
        "target_role is required"
    );
    assert_eq!(
        validation(
            read_roadmap_payload(&parse(r#"{"target_role":1,"tech_stack":"B"}"#)).unwrap_err()
        ),
        "target_role is required"
    );
}

#[test]
fn roadmap_request_carries_the_parameters() {
    let payload = read_roadmap_payload(&parse(
        r#"{"target_role":"SRE","timeframe_months":9,"provider":"groq"}"#,
    ))
    .unwrap();
    let request = roadmap_request(&payload, &texts(&["Linux", "Go"]));
    assert_eq!(request.action, ActionType::GenerateRoadmap);
    assert_eq!(request.provider, AIProvider::Groq);
    assert_eq!(request.input, "SRE");
    assert_eq!(
        request.parameters,
        Some(parse(
            r#"{"current_skills":"Linux, Go","timeframe_months":9,"learning_hours_per_week":10}"#
        ))
    );
    let payload = read_roadmap_payload(&parse(
        r#"{"target_role":"SRE","include_current_skills":false}"#,
    ))
    .unwrap();
    let request = roadmap_request(&payload, &texts(&["Linux", "Go"]));
    assert_eq!(
        request.parameters,
        Some(parse(r#"{"timeframe_months":6,"learning_hours_per_week":10}"#))
    );
    let payload = read_roadmap_payload(&parse(r#"{"target_role":"SRE"}"#)).unwrap();
    let request = roadmap_request(&payload, &texts(&[]));
    assert_eq!(
        request.parameters,
        Some(parse(r#"{"current_skills":"","timeframe_months":6,"learning_hours_per_week":10}"#))
    );
}

#[test]
fn roadmap_answer_fields() {
    assert_eq!(roadmap_title("SRE"), "Roadmap to SRE");
    assert_eq!(roadmap_title(""), "Roadmap to ");
    let data = parse(
        r#"{"project_suggestions":[{"title":"p"}],"job_application_timing":"after phase 3"}"#,
    );
    assert_eq!(project_suggestions(&data), parse(r#"[{"title":"p"}]"#));
    assert_eq!(job_application_timing(&data), "after phase 3");
    let bare = parse(r#"{"job_application_timing":3,"project_suggestions":"none"}"#);
    assert_eq!(project_suggestions(&bare), parse(r#""none""#));
    assert_eq!(job_application_timing(&bare), "Apply after completing 60-70% of the roadmap");
    let empty = parse("{}");
    assert_eq!(project_suggestions(&empty), parse("[]"));
    assert_eq!(job_application_timing(&empty), "Apply after completing 60-70% of the roadmap");
}

#[test]
fn summary_request_is_exact() {
    let request = summary_request(&profile(), AIProvider::Gemini);
    assert_eq!(request.action, ActionType::GenerateContent);
    assert_eq!(request.provider, AIProvider::Gemini);
    assert_eq!(
        request.input,
        "Generate a professional summary for a CV/LinkedIn profile based on the following information:\n\nUser Profile:\nSkills: Rust, SQL\nProjects: a compiler\nTarget Roles: Backend Engineer, SRE\nEducation: Not specified\nExperience Level: Some(\"junior\")\n\nCreate a compelling 2-3 sentence professional summary that highlights key strengths, experience, and career goals. Make it engaging and professional."
    );
    assert_eq!(
        request.parameters,
        Some(parse(
            r#"{"content_type":"professional_summary","tone":"professional","length":"short"}"#
        ))
    );
}

#[test]
fn projects_payload_and_request() {
    let payload = parse(r#"{"projects":["Built a todo app",3,"Created a website"]}"#);
    let projects = read_projects_payload(&payload).unwrap();
    assert_eq!(projects, texts(&["Built a todo app", "Created a website"]));
    assert_eq!(
        validation(read_projects_payload(&parse(r#"{"projects":"one"}"#)).unwrap_err()),
        "projects array is required"
    );
    assert_eq!(
        validation(read_projects_payload(&parse("{}")).unwrap_err()),
        "projects array is required"
    );
    let request = projects_request(&texts(&["Rust", "SQL"]), &projects, AIProvider::Groq);
    assert_eq!(request.action, ActionType::GenerateContent);
    assert_eq!(request.provider, AIProvider::Groq);
    assert_eq!(
        request.input,
        "Improve these project descriptions for a professional CV. Make them more impactful using action verbs and quantifiable achievements where possible. User's skills: Rust, SQL\n\nProjects:\n- Built a todo app\n- Created a website\n\nReturn a JSON array of improved descriptions in the same order."
    );
    assert_eq!(
        request.parameters,
        Some(parse(r#"{"content_type":"project_descriptions","format":"bullet_points"}"#))
    );
}

#[test]
fn suggestions_request_is_exact() {
    let mut user = profile();
    user.education_level = Some("BSc".to_string());
    let request = suggestions_request("github", &user, AIProvider::Gemini);
    assert_eq!(request.action, ActionType::GenerateContent);
    assert_eq!(
        request.input,
        "Provide 5 specific, actionable suggestions to improve a github profile for a job seeker with the following background:\n\nSkills: Rust, SQL\nTarget Roles: Backend Engineer, SRE\nExperience Level: Some(\"junior\")\nEducation: BSc\n\nReturn suggestions as a JSON array of objects with 'category' and 'suggestion' fields."
    );
    assert_eq!(
        request.parameters,
        Some(parse(r#"{"content_type":"profile_suggestions","platform":"github"}"#))
    );
}

#[test]
fn mentor_request_is_exact() {
    let request = mentor_request("What next?", &profile(), AIProvider::Groq);
    assert_eq!(request.action, ActionType::AskQuestion);
    assert_eq!(request.provider, AIProvider::Groq);
    assert_eq!(request.input, "What next?");
    assert_eq!(
        request.parameters,
        Some(parse(
            r#"{"context":"User's current skills: Rust, SQL\nTarget roles: Backend Engineer, SRE\nExperience level: Some(\"junior\")"}"#
        ))
    );
}

#[test]
fn progress_update_is_validated() {
    let update = read_progress_update(&parse(
        r#"{"progress_percentage":45,"completed_phases":[1,"x",2,2.5,-3],"notes":"going"}"#,
    ))
    .unwrap();
    assert_eq!(update.progress_percentage, Some(45));
    assert_eq!(update.completed_phases, Some(vec![1, 2, -3]));
    assert_eq!(update.notes, Some("going".to_string()));

    let empty = read_progress_update(&parse("{}")).unwrap();
    assert_eq!(empty.progress_percentage, None);
    assert_eq!(empty.completed_phases, None);
    assert_eq!(empty.notes, None);

    assert_eq!(read_progress_update(&parse(r#"{"progress_percentage":0}"#)).unwrap().progress_percentage, Some(0));
    assert_eq!(read_progress_update(&parse(r#"{"progress_percentage":100}"#)).unwrap().progress_percentage, Some(100));
    assert_eq!(read_progress_update(&parse(r#"{"progress_percentage":"50"}"#)).unwrap().progress_percentage, None);
    assert_eq!(read_progress_update(&parse(r#"{"progress_percentage":50.5}"#)).unwrap().progress_percentage, None);
    let complaint = "Progress percentage must be between 0 and 100";
    assert_eq!(
        validation(read_progress_update(&parse(r#"{"progress_percentage":101}"#)).unwrap_err()),
        complaint
    );
    assert_eq!(
        validation(read_progress_update(&parse(r#"{"progress_percentage":-1}"#)).unwrap_err()),
        complaint
    );
    assert_eq!(
        validation(
            read_progress_update(&parse(r#"{"progress_percentage":2147483648}"#)).unwrap_err()
        ),
        complaint
    );
    assert_eq!(
        read_progress_update(&parse(r#"{"progress_percentage":4294967346}"#))
            .unwrap()
            .progress_percentage,
        Some(50)
    );
}

#[test]
fn collect_phases_keeps_integers() {
    let items = match parse(r#"[3,null,"4",5,4294967297,18446744073709551615]"#) {
        Value::Array(items) => items,
        _ => unreachable!(),
    };
    assert_eq!(collect_phases(&items), vec![3, 5, 1]);
    assert_eq!(collect_phases(&Vec::new()), Vec::<i32>::new());
}

fn update(
    progress_percentage: Option<i32>,
    completed_phases: Option<Vec<i32>>,
    notes: Option<&str>,
) -> ProgressUpdate {
    ProgressUpdate { progress_percentage, completed_phases, notes: notes.map(String::from) }
}

#[test]
fn progress_statement_for_each_combination() {
    let simple = "UPDATE career_roadmaps SET progress_percentage = $3, updated_at = CURRENT_TIMESTAMP WHERE id = $1 AND user_id = $2 RETURNING id";
    let s = progress_statement(&update(Some(45), None, None));
    assert_eq!(s.query, simple);
    assert_eq!(s.values, ProgressValues::Percentage);
    let s = progress_statement(&update(None, None, None));
    assert_eq!(s.query, simple);
    assert_eq!(s.values, ProgressValues::Percentage);

    let s = progress_statement(&update(Some(45), Some(vec![1, 2]), Some("n")));
    assert_eq!(
        s.query,
        "UPDATE career_roadmaps SET updated_at = CURRENT_TIMESTAMP,  progress_percentage = 45,  completed_phases = $3,  notes = $4 WHERE id = $1 AND user_id = $2 RETURNING id"
    );
    assert_eq!(s.values, ProgressValues::PhasesAndNotes);

    let s = progress_statement(&update(None, Some(Vec::new()), Some("")));
    assert_eq!(
        s.query,
        "UPDATE career_roadmaps SET updated_at = CURRENT_TIMESTAMP,  completed_phases = $3,  notes = $4 WHERE id = $1 AND user_id = $2 RETURNING id"
    );
    assert_eq!(s.values, ProgressValues::PhasesAndNotes);

    let s = progress_statement(&update(Some(100), Some(vec![3]), None));
    assert_eq!(
        s.query,
        "UPDATE career_roadmaps SET updated_at = CURRENT_TIMESTAMP,  progress_percentage = 100,  completed_phases = $3 WHERE id = $1 AND user_id = $2 RETURNING id"
    );
    assert_eq!(s.values, ProgressValues::Phases);

    let s = progress_statement(&update(None, Some(vec![3]), None));
    assert_eq!(
        s.query,
        "UPDATE career_roadmaps SET updated_at = CURRENT_TIMESTAMP,  completed_phases = $3 WHERE id = $1 AND user_id = $2 RETURNING id"
    );
    assert_eq!(s.values, ProgressValues::Phases);

    let s = progress_statement(&update(Some(0), None, Some("note")));
    assert_eq!(
        s.query,
        "UPDATE career_roadmaps SET updated_at = CURRENT_TIMESTAMP,  progress_percentage = 0,  notes = $4 WHERE id = $1 AND user_id = $2 RETURNING id"
    );
    assert_eq!(s.values, ProgressValues::Notes);

    let s = progress_statement(&update(None, None, Some("note")));
    assert_eq!(
        s.query,
        "UPDATE career_roadmaps SET updated_at = CURRENT_TIMESTAMP,  notes = $4 WHERE id = $1 AND user_id = $2 RETURNING id"
    );
    assert_eq!(s.values, ProgressValues::Notes);
}

#[test]
fn progress_statement_of_a_read_update() {
    let read = read_progress_update(&parse(r#"{"progress_percentage":45,"completed_phases":[1,2],"notes":"x"}"#))
        .unwrap();
    let s = progress_statement(&read);
    assert!(s.query.contains(" progress_percentage = 45,"));
    assert_eq!(s.values, ProgressValues::PhasesAndNotes);
}
