use cline_xray::agent::{
    agent_status, choose_provider, map_agent_error, AgentConfig, AgentError, AgentRequest, ProviderChoice,
    SourceCitation, ToolArg, ToolError,
};
use cline_xray::agent_loop::{citation_for, dedup_sources, summarize_result, AgentRun, AgentStep, ToolResult};
use cline_xray::config::{default_log_to_console, get_config_path, get_log_file_path, load_config, AppConfig};
use cline_xray::gemini_api::{
    http_failure_error, send_failure_error, tool_config_for, GeminiCandidate, GeminiContent, GeminiPart,
    GeminiResponse, GeminiUsageMetadata,
};
use cline_xray::jira::{
    api_error, extract_text_from_adf, get_auth_header, issue_url, search_url, AdfValue,
};
use cline_xray::session::{env_file_content, gemini_key_or_placeholder, generate_auth_token, ApiInfo};

fn request(question: &str, model: Option<&str>) -> AgentRequest {
    AgentRequest {
        question: question.to_string(),
        chat_id: None,
        agent_id: None,
        model_id: model.map(|m| m.to_string()),
        session_id: Some("s-1".to_string()),
        schema_filter: None,
        connection_id: None,
    }
}

fn reply(parts: Vec<GeminiPart>, tokens: Option<(u32, u32, u32)>) -> GeminiResponse {
    GeminiResponse {
        candidates: vec![GeminiCandidate {
            content: GeminiContent { role: "model".to_string(), parts },
            finish_reason: None,
        }],
        usage_metadata: tokens.map(|(p, c, t)| GeminiUsageMetadata {
            prompt_token_count: Some(p),
            candidates_token_count: Some(c),
            total_token_count: Some(t),
        }),
    }
}

fn call(name: &str, args: Vec<(&str, ToolArg)>) -> GeminiPart {
    GeminiPart::FunctionCall {
        name: name.to_string(),
        args: args.into_iter().map(|(k, v)| (k.to_string(), v)).collect(),
        args_json: "{}".to_string(),
    }
}

fn ok_result(id: &str, data: &str) -> ToolResult {
    ToolResult { tool_call_id: id.to_string(), success: true, data_json: data.to_string(), error: None }
}

#[test]
fn agent_run_answers_directly() {
    let (mut run, step) = AgentRun::start(&request("How many tables?", None), "gemini-1.5-flash", 5);
    assert!(matches!(step, AgentStep::CallModel));
    match run.on_model_reply(&reply(vec![GeminiPart::Text("Forty".to_string())], Some((3, 4, 7))), 12, "") {
        AgentStep::Finished(Ok(resp)) => {
            assert_eq!(resp.answer, "Forty");
            assert_eq!(resp.session_id, "s-1");
            assert_eq!(resp.model_id.as_deref(), Some("gemini-1.5-flash"));
            let t = resp.tokens_used.unwrap();
            assert_eq!((t.prompt_tokens, t.completion_tokens, t.total_tokens), (3, 4, 7));
            assert!(resp.sources.is_empty());
        },
        _ => panic!("an answer expected"),
    }
}

#[test]
fn agent_run_with_tools_and_citations() {
    let (mut run, _) = AgentRun::start(&request("Tables in HR?", Some("gemini-1.5-pro")), "x", 5);
    let step = run.on_model_reply(
        &reply(vec![call("list_tables", vec![("schema", ToolArg::Text("hr".to_string()))])], Some((1, 1, 2))),
        5,
        "",
    );
    let tool = match step {
        AgentStep::RunTool(c) => c,
        _ => panic!("a tool call expected"),
    };
    assert_eq!(tool.name, "list_tables");
    let step = run.on_tool_result(ok_result(&tool.id, "{\"count\":2}"), 3, "");
    assert!(matches!(step, AgentStep::CallModel));
    assert_eq!(run.contents().len(), 3);
    match run.on_model_reply(&reply(vec![GeminiPart::Text("Two".to_string())], Some((1, 1, 2))), 5, "") {
        AgentStep::Finished(Ok(resp)) => {
            assert_eq!(resp.answer, "Two");
            assert_eq!(resp.sources.len(), 1);
            assert_eq!(resp.sources[0].reference.as_deref(), Some("HR"));
            assert_eq!(resp.tokens_used.unwrap().total_tokens, 4);
            assert!(resp.trace.len() >= 4);
        },
        _ => panic!("an answer expected"),
    }
}

#[test]
fn agent_run_records_the_round_in_the_conversation() {
    let (mut run, _) = AgentRun::start(&request("Schemas and tables?", None), "m", 3);
    let first = run.contents()[0].parts.len();
    assert_eq!(first, 1);
    let step = run.on_model_reply(
        &reply(vec![call("list_schemas", vec![]), call("list_tables", vec![])], None),
        1,
        "",
    );
    let tool = match step {
        AgentStep::RunTool(c) => c,
        _ => panic!("a tool call expected"),
    };
    assert_eq!(tool.name, "list_schemas");
    let tool = match run.on_tool_result(ok_result(&tool.id, "[]"), 1, "") {
        AgentStep::RunTool(c) => c,
        _ => panic!("the second call expected"),
    };
    assert_eq!(tool.name, "list_tables");
    assert_eq!(run.contents().len(), 1);
    assert!(matches!(run.on_tool_result(ok_result(&tool.id, "[]"), 1, ""), AgentStep::CallModel));
    let contents = run.contents();
    assert_eq!(contents.len(), 3);
    assert_eq!(contents[1].role, "model");
    assert_eq!(contents[2].role, "user");
    let names: Vec<&str> = contents[1]
        .parts
        .iter()
        .map(|p| match p {
            GeminiPart::FunctionCall { name, .. } => name.as_str(),
            _ => "",
        })
        .collect();
    assert_eq!(names, vec!["list_schemas", "list_tables"]);
    let names: Vec<&str> = contents[2]
        .parts
        .iter()
        .map(|p| match p {
            GeminiPart::FunctionResponse { name, .. } => name.as_str(),
            _ => "",
        })
        .collect();
    assert_eq!(names, vec!["list_schemas", "list_tables"]);
}

#[test]
fn agent_run_stops_at_the_iteration_limit() {
    let (mut run, step) = AgentRun::start(&request("q", None), "m", 1);
    assert!(matches!(step, AgentStep::CallModel));
    let step = run.on_model_reply(&reply(vec![call("list_schemas", vec![])], None), 1, "");
    let tool = match step {
        AgentStep::RunTool(c) => c,
        _ => panic!("a tool call expected"),
    };
    match run.on_tool_result(ToolResult::error(&tool.id, "No active connection"), 1, "") {
        AgentStep::Finished(Err(AgentError::MaxIterationsExceeded)) => {},
        _ => panic!("the limit expected"),
    }
    let (_, step) = AgentRun::start(&request("q", None), "m", 0);
    assert!(matches!(step, AgentStep::Finished(Err(AgentError::MaxIterationsExceeded))));
}

#[test]
fn result_summaries() {
    let long = "y".repeat(600);
    assert_eq!(summarize_result(&ok_result("1", &long)), format!("{}...(truncated)", "y".repeat(500)));
    assert_eq!(summarize_result(&ok_result("1", "{}")), "{}");
    assert_eq!(summarize_result(&ToolResult::error("1", "bad")), "Error: bad");
}

#[test]
fn sources_keep_first_of_each() {
    // Sources are the same when their type and reference are.
    let s = |t: &str, d: &str, r: Option<&str>| SourceCitation {
        source_type: t.to_string(),
        description: d.to_string(),
        reference: r.map(|x| x.to_string()),
    };
    let out = dedup_sources(vec![
        s("a", "x", None),
        s("b", "y", None),
        s("a", "x2", None),
        s("a", "z", Some("R")),
        s("a", "z2", Some("R")),
    ]);
    let ds: Vec<&str> = out.iter().map(|c| c.description.as_str()).collect();
    assert_eq!(ds, vec!["x", "y", "z"]);
}

#[test]
fn agent_errors_and_choice() {
    let e = map_agent_error(&AgentError::RateLimited);
    assert_eq!((e.status, e.code.as_str(), e.error.as_str()), (429, "RATE_LIMITED", "Rate limit exceeded"));
    let e = map_agent_error(&AgentError::ToolError(ToolError::UnknownTool("x".to_string())));
    assert_eq!(e.error, "Tool execution failed: Unknown tool: x");
    assert!(matches!(choose_provider(&request("q", None), true, "gemini-1.5-flash", true, true), Ok(ProviderChoice::Gemini(m)) if m == "gemini-1.5-flash"));
    let e = choose_provider(&request("  ", None), true, "m", true, true).unwrap_err();
    assert_eq!((e.status, e.code.as_str()), (400, "EMPTY_QUESTION"));
    let e = choose_provider(&request("q", Some("gpt-4")), true, "m", false, true).unwrap_err();
    assert_eq!(e.status, 501);
    let e = choose_provider(&request("q", Some("llama")), true, "m", false, true).unwrap_err();
    assert_eq!(e.error, "Unknown model: llama");
    let e = choose_provider(&request("q", None), false, "m", true, true).unwrap_err();
    assert_eq!(e.code, "AGENT_NOT_CONFIGURED");
    let st = agent_status(false, 9, "m".to_string());
    assert_eq!(st.providers[0].model_count, 0);
    let cfg = AgentConfig::from_env_values(None, Some("k".to_string()), None);
    assert!(cfg.is_configured() && !cfg.has_gemini());
    assert_eq!(cfg.default_model, "gemini-1.5-flash");
    assert_eq!(cfg.max_iterations, 10);
}

#[test]
fn gemini_errors_and_tool_config() {
    assert!(tool_config_for(false).is_none());
    assert_eq!(tool_config_for(true).unwrap().function_calling_config.mode, "AUTO");
    assert!(matches!(send_failure_error(true, "slow"), AgentError::Timeout));
    assert!(matches!(http_failure_error("429 Too Many Requests", "", Some("Quota exceeded: 429".to_string())), AgentError::RateLimited));
    match http_failure_error("500 Internal Server Error", "oops", None) {
        AgentError::ApiError(m) => assert_eq!(m, "HTTP 500 Internal Server Error: oops"),
        _ => panic!("api error expected"),
    }
}

#[test]
fn config_paths_and_defaults() {
    assert!(default_log_to_console());
    assert_eq!(get_config_path("/c", '/'), "/c/config.toml");
    assert_eq!(get_log_file_path("/l", "20240101_000000", '/'), "/l/jira_viewer_20240101_000000.log");
    let (cfg, write) = load_config(None);
    assert!(write);
    assert_eq!(cfg.logging.level, "INFO");
    let (_, write) = load_config(Some(AppConfig::default()));
    assert!(!write);
}

#[test]
fn jira_requests_and_adf_text() {
    assert_eq!(get_auth_header("a@b.c", "tok"), "Basic YUBiLmM6dG9r");
    assert_eq!(search_url("https://x"), "https://x/rest/api/3/search/jql");
    assert_eq!(issue_url("https://x", "K-1"), "https://x/rest/api/3/issue/K-1");
    assert_eq!(api_error("404 Not Found", "nope"), "API error 404 Not Found: nope");
    let text = |t: &str| AdfValue::Object { node_type: Some("text".to_string()), text: Some(t.to_string()), content: None };
    let para = |items: Vec<AdfValue>| AdfValue::Object { node_type: Some("paragraph".to_string()), text: None, content: Some(Box::new(AdfValue::Array(items))) };
    let doc = AdfValue::Array(vec![para(vec![text("Hello"), text("world")]), AdfValue::Other, para(vec![])]);
    assert_eq!(extract_text_from_adf(&doc).as_deref(), Some("Hello\nworld"));
    assert!(extract_text_from_adf(&AdfValue::Other).is_none());
}

#[test]
fn session_token_and_env_file() {
    let t = generate_auth_token();
    assert_eq!(t.len(), 64);
    assert!(t.chars().all(|c| c.is_ascii_hexdigit() && !c.is_ascii_uppercase()));
    assert_ne!(t, generate_auth_token());
    let info = ApiInfo { base_url: "http://127.0.0.1:3030".to_string(), token: "abc".to_string() };
    let out = env_file_content("GEMINI_API_KEY=k\nREST_API_URL=old\nREST_API_TOKEN=old", &info);
    assert_eq!(
        out,
        "GEMINI_API_KEY=k\n\n# REST API Info (auto-generated on app start)\nREST_API_URL=http://127.0.0.1:3030\nREST_API_TOKEN=abc\n"
    );
    assert_eq!(gemini_key_or_placeholder(None), "YOUR_GEMINI_API_KEY_HERE");
}

#[test]
fn citation_quotes_the_schema_as_json() {
    let call = cline_xray::agent::ToolCall {
        id: "c1".to_string(),
        name: "list_tables".to_string(),
        arguments: vec![("schema".to_string(), ToolArg::Text("h\"r\\\n\u{1}".to_string()))],
    };
    let c = citation_for(&call).unwrap();
    assert_eq!(c.description, "Tables in \"h\\\"r\\\\\\n\\u0001\"");
    assert_eq!(c.reference.as_deref(), Some("H\"R\\\n\u{1}"));
}
