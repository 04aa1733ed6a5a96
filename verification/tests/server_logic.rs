use cline_xray::agents::{
    apply_agent_update, builtin_agent_at, check_agent_name, check_delete, get_agent_path, init_agents,
    list_agents, new_agent, CreateAgentRequest, CustomAgent, UpdateAgentRequest,
};
use cline_xray::chat::{
    api_key_configured, chat_answer, chat_model, conversation_for, first_chars, gemini_generate_url,
    gemini_reply_text, health, jira_list_params, key_missing, key_missing_record, openai_reply_text,
    chat_finish, chat_start, ChatCallOutcome, ChatMessage, ChatProvider, ChatStart, JiraListQuery,
};
use cline_xray::latest::{latest_diff_plan, latest_task, LatestDiffPlan};
use cline_xray::logs::{verify_token, AccessLog, InferenceLog, InferenceRecord};

fn msg(role: &str, content: &str) -> ChatMessage {
    ChatMessage { role: role.to_string(), content: content.to_string() }
}

fn record(n: u64) -> InferenceRecord {
    InferenceRecord {
        provider: "gemini".to_string(),
        model: "m".to_string(),
        request_type: "chat".to_string(),
        success: true,
        status_code: Some(200),
        duration_ms: n,
        prompt_tokens: None,
        completion_tokens: None,
        total_tokens: None,
        error_message: None,
        system_prompt: None,
        user_message_preview: None,
        metadata: None,
    }
}

#[test]
fn access_log_keeps_last_thousand_with_increasing_ids() {
    let mut log = AccessLog::new();
    for i in 0..1005u64 {
        log.add("GET".to_string(), format!("/p{}", i), 200, i, "127.0.0.1".to_string());
    }
    let entries = log.get();
    assert_eq!(entries.len(), 1000);
    assert_eq!(entries[0].id, 6);
    assert_eq!(entries[0].path, "/p5");
    assert_eq!(entries[999].id, 1005);
    assert!(entries.windows(2).all(|w| w[0].id < w[1].id));
    log.clear();
    assert!(log.get().is_empty());
    log.add("POST".to_string(), "/x".to_string(), 201, 1, "::1".to_string());
    assert_eq!(log.get()[0].id, 1006);
}

#[test]
fn inference_log_keeps_last_five_hundred() {
    let mut log = InferenceLog::new();
    for i in 0..502u64 {
        log.add(record(i));
    }
    let entries = log.get();
    assert_eq!(entries.len(), 500);
    assert_eq!(entries[0].id, 3);
    assert_eq!(entries[0].duration_ms, 2);
    assert_eq!(entries[499].model, "m");
    log.clear();
    assert!(log.get().is_empty());
}

#[test]
fn token_check_is_exact() {
    assert!(verify_token("abc", "abc"));
    assert!(!verify_token("abc", "abd"));
    assert!(!verify_token("abc", ""));
}

#[test]
fn chat_defaults_and_keys() {
    assert_eq!(health(7).uptime_secs, 7);
    assert_eq!(health(7).status, "ok");
    let (jql, max) = jira_list_params(&JiraListQuery { jql: None, max_results: None });
    assert_eq!((jql.as_str(), max), ("assignee = currentUser() ORDER BY updated DESC", 100));
    assert!(!api_key_configured(&ChatProvider::Gemini, "YOUR_GEMINI_API_KEY_HERE"));
    assert!(!api_key_configured(&ChatProvider::OpenAI, ""));
    assert!(api_key_configured(&ChatProvider::OpenAI, "sk"));
    assert_eq!(chat_model(&ChatProvider::Gemini, &None), "gemini-2.0-flash");
    assert_eq!(chat_model(&ChatProvider::OpenAI, &None), "gpt-4o-mini");
    assert_eq!(chat_model(&ChatProvider::OpenAI, &Some("o1".to_string())), "o1");
    assert_eq!(key_missing(&ChatProvider::OpenAI).code, 400);
    assert_eq!(first_chars("héllo", 2), "hé");
    assert_eq!(first_chars("hi", 5), "hi");
    assert_eq!(
        gemini_generate_url("gemini-2.0-flash", "K"),
        "https://generativelanguage.googleapis.com/v1beta/models/gemini-2.0-flash:generateContent?key=K"
    );
    let rec = key_missing_record(&ChatProvider::Gemini, "m", 3, "hi".to_string());
    assert_eq!(rec.error_message.as_deref(), Some("Gemini API key not configured"));
    assert_eq!(rec.status_code, Some(400));
}

#[test]
fn chat_conversation_and_answers() {
    let history = vec![msg("user", "q1"), msg("model", "a1")];
    let sent = conversation_for(&ChatProvider::OpenAI, &history, "q2");
    assert_eq!(sent.len(), 3);
    assert_eq!(sent[1].role, "assistant");
    assert_eq!(sent[2].role, "user");
    assert_eq!(sent[2].content, "q2");
    let sent = conversation_for(&ChatProvider::Gemini, &history, "q2");
    assert_eq!(sent[1].role, "model");

    match chat_answer(&ChatProvider::Gemini, &history, "q2".to_string(), ChatCallOutcome::Reply("a2".to_string())) {
        Ok(r) => {
            assert_eq!(r.response, "a2");
            assert_eq!(r.history.len(), 4);
            assert_eq!(r.history[3].role, "model");
            assert_eq!(r.history[2].content, "q2");
        },
        Err(_) => panic!("reply expected"),
    }
    match chat_answer(&ChatProvider::OpenAI, &history, "q".to_string(), ChatCallOutcome::HttpError { status: 429, body: "slow".to_string() }) {
        Err(e) => {
            assert_eq!(e.error, "OpenAI API error: slow");
            assert_eq!(e.code, 429);
        },
        Ok(_) => panic!("error expected"),
    }
    match chat_answer(&ChatProvider::Gemini, &history, "q".to_string(), ChatCallOutcome::SendFailed("dns".to_string())) {
        Err(e) => assert_eq!((e.error.as_str(), e.code), ("Failed to call Gemini API: dns", 500)),
        Ok(_) => panic!("error expected"),
    }
    assert_eq!(gemini_reply_text(&Some(vec![vec!["a".to_string(), "b".to_string()]])), "ab");
    assert_eq!(gemini_reply_text(&Some(vec![])), "No response from Gemini");
    assert_eq!(openai_reply_text(&Some(vec![None])), "No response from OpenAI");
    assert_eq!(openai_reply_text(&Some(vec![Some("x".to_string())])), "x");
}

#[test]
fn latest_choices() {
    assert!(matches!(latest_task(&[]), Err(_)));
    assert!(matches!(latest_diff_plan("task", Some(2)), LatestDiffPlan::Task));
    assert!(matches!(latest_diff_plan("subtask", Some(2)), LatestDiffPlan::Subtask(2)));
    assert!(matches!(latest_diff_plan("subtask", None), LatestDiffPlan::Task));
}

fn create(name: &str) -> CreateAgentRequest<f32> {
    CreateAgentRequest {
        name: name.to_string(),
        icon: "🤖".to_string(),
        description: String::new(),
        provider: "gemini".to_string(),
        model: "gemini-1.5-flash".to_string(),
        temperature: 0.5,
        max_tokens: 10,
        system_prompt: String::new(),
        starters: vec![],
        tool_source: "builtin".to_string(),
        custom_openapi_url: None,
        enabled_tools: vec!["*".to_string()],
        tool_overrides: vec![],
    }
}

fn no_update() -> UpdateAgentRequest<f32> {
    UpdateAgentRequest {
        name: None,
        icon: None,
        description: None,
        provider: None,
        model: None,
        temperature: None,
        max_tokens: None,
        system_prompt: None,
        starters: None,
        tool_source: None,
        custom_openapi_url: None,
        enabled_tools: None,
        tool_overrides: None,
    }
}

#[test]
fn agents_listing_order_and_updates() {
    let b: CustomAgent<f32> = builtin_agent_at("2024-01-01T00:00:00Z".to_string(), 0.7);
    assert!(b.is_builtin);
    let x = new_agent(create("Zeta"), "id-z".to_string(), "t0".to_string());
    let y = new_agent(create("Alpha"), "id-a".to_string(), "t0".to_string());
    assert!(!x.is_builtin);
    assert_eq!(x.created_at, "t0");
    let listed = list_agents(vec![x, b, y]);
    let names: Vec<&str> = listed.iter().map(|a| a.name.as_str()).collect();
    assert!(listed[0].is_builtin);
    assert_eq!(&names[1..], &["Alpha", "Zeta"]);

    let mut upd = no_update();
    upd.name = Some("Beta".to_string());
    upd.max_tokens = Some(99);
    let a = new_agent(create("Alpha"), "id-a".to_string(), "t0".to_string());
    let a2 = apply_agent_update(a, upd, "t1".to_string());
    assert_eq!(a2.name, "Beta");
    assert_eq!(a2.max_tokens, 99);
    assert_eq!(a2.model, "gemini-1.5-flash");
    assert_eq!(a2.updated_at, "t1");
    assert_eq!(a2.created_at, "t0");
    assert!(check_delete(&a2, "id-a").is_ok());
    let b: CustomAgent<f32> = builtin_agent_at("t".to_string(), 0.7);
    assert!(check_delete(&b, &b.id.clone()).is_err());
    assert!(check_agent_name("   ").is_some());
    assert!(check_agent_name("ok").is_none());
    assert!(init_agents::<f32>(true, 0.7).is_none());
    assert!(init_agents::<f32>(false, 0.7).unwrap().is_builtin);
    assert_eq!(get_agent_path("/a", "x", '/'), "/a/x.json");
}

#[test]
fn chat_flow_refuses_without_key_and_logs_once() {
    let history = vec![msg("user", "q1"), msg("model", "a1")];
    let long = "x".repeat(150);
    match chat_start(&ChatProvider::Gemini, "YOUR_GEMINI_API_KEY_HERE", &None, &history, &long, 4) {
        ChatStart::Refused(e, rec) => {
            assert_eq!(e.code, 400);
            assert!(!rec.success);
            assert_eq!(rec.model, "gemini-2.0-flash");
            assert_eq!(rec.user_message_preview.as_deref().map(|p| p.len()), Some(100));
        }
        ChatStart::Send(..) => panic!("no request without a key"),
    }
    match chat_start(&ChatProvider::OpenAI, "sk", &Some("gpt-x".to_string()), &history, "q2", 0) {
        ChatStart::Send(model, conv) => {
            assert_eq!(model, "gpt-x");
            assert_eq!(conv.len(), 3);
            assert_eq!(conv[1].role, "assistant");
            assert_eq!(conv[2].content, "q2");
        }
        ChatStart::Refused(..) => panic!("a request expected"),
    }
    let (answer, rec) = chat_finish(
        &ChatProvider::Gemini,
        "m",
        &history,
        "q2".to_string(),
        ChatCallOutcome::Reply("a2".to_string()),
        9,
        (Some(1), Some(2), Some(3)),
        None,
    );
    assert!(answer.is_ok() && rec.success);
    assert_eq!(rec.status_code, Some(200));
    let (answer, rec) = chat_finish(
        &ChatProvider::Gemini,
        "m",
        &history,
        "q2".to_string(),
        ChatCallOutcome::HttpError { status: 503, body: "down".to_string() },
        9,
        (None, None, None),
        None,
    );
    match answer {
        Err(e) => assert_eq!(e.code, 503),
        Ok(_) => panic!("an error expected"),
    }
    assert!(!rec.success);
    assert_eq!(rec.error_message.as_deref(), Some("API error: down"));
}
