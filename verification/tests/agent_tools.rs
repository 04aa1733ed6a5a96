use cline_xray::agent::{ToolArg, ToolCall, ToolError};
use cline_xray::agent_loop::GeminiProvider;
use cline_xray::agents::{
    default_max_tokens, default_model, default_provider, resolve_template_variables,
    resolve_template_variables_at,
};
use cline_xray::executor::{
    catalog_query, db_tool_for, executed, openapi_outcome, openapi_route, query_pairs,
    query_row_limit, DbTool, HttpMethod, HttpReply,
};
use cline_xray::tools::{get_tool_definitions, to_gemini_functions, to_openai_functions};

fn call(name: &str, args: Vec<(&str, ToolArg)>) -> ToolCall {
    ToolCall {
        id: "test-1".to_string(),
        name: name.to_string(),
        arguments: args.into_iter().map(|(k, v)| (k.to_string(), v)).collect(),
    }
}

#[test]
fn test_resolve_template_variables() {
    let prompt = "Connection: {{CONNECTION_NAME}}, User: {{CONNECTION_USER}}, Schemas: {{SCHEMAS}}";
    let schemas = ["HR".to_string(), "SALES".to_string()];
    let result = resolve_template_variables(prompt, Some("ORADEV"), Some("HR"), Some(&schemas));
    assert!(result.contains("ORADEV"));
    assert!(result.contains("HR"));
    assert!(result.contains("HR, SALES"));
}

#[test]
fn resolve_template_variables_defaults_and_time() {
    let r = resolve_template_variables_at(
        "{{CONNECTION_NAME}}|{{CONNECTION_USER}}|{{SCHEMAS}}|{{TIMESTAMP}}|{{TIMESTAMP}}",
        None,
        None,
        None,
        "2024-01-02 03:04:05",
    );
    assert_eq!(r, "Not connected|Unknown|None available|2024-01-02 03:04:05|2024-01-02 03:04:05");
}

#[test]
fn test_default_values() {
    assert_eq!(default_provider(), "gemini");
    assert_eq!(default_model(), "gemini-1.5-flash");
    assert_eq!(default_max_tokens(), 4096);
}

#[test]
fn test_tool_call_get_param() {
    let tool_call = call(
        "list_tables",
        vec![("schema", ToolArg::Text("HR".to_string())), ("max_rows", ToolArg::Count(50))],
    );
    assert_eq!(tool_call.get_param("schema").unwrap(), "HR");
    assert!(tool_call.get_param("missing").is_err());
    assert_eq!(tool_call.get_int_param_or("max_rows", 100), 50);
    assert_eq!(tool_call.get_int_param_or("missing", 100), 100);
}

#[test]
fn get_param_or_and_missing_message() {
    let c = call("x", vec![("a", ToolArg::Count(3))]);
    assert_eq!(c.get_param_or("a", "dflt"), "dflt");
    assert_eq!(c.get_param_or("b", "dflt"), "dflt");
    match c.get_param("a") {
        Err(e) => assert_eq!(e.message(), "Missing required parameter: a"),
        Ok(_) => panic!("a number is no text parameter"),
    }
}

#[test]
fn test_provider_info() {
    let provider = GeminiProvider::new("test-key", 60);
    assert_eq!(provider.name(), "gemini");
    assert!(provider.is_configured());
    assert_eq!(provider.default_model(), "gemini-1.5-flash");
    assert!(provider.supports_model("gemini-1.5-flash"));
    assert!(provider.supports_model("gemini-1.5-pro"));
    assert!(!provider.supports_model("gpt-4"));
}

#[test]
fn test_supported_models() {
    let provider = GeminiProvider::new("test-key", 60);
    let models = provider.supported_models();
    assert!(models.contains(&"gemini-1.5-flash"));
    assert!(models.contains(&"gemini-1.5-pro"));
    assert!(models.contains(&"gemini-2.0-flash"));
}

#[test]
fn provider_without_key_and_with_model() {
    let p = GeminiProvider::with_model("", "gemini-2.0-flash", 5);
    assert!(!p.is_configured());
    assert_eq!(p.default_model(), "gemini-2.0-flash");
    assert_eq!(p.timeout_secs, 5);
    assert!(p.supports_model("gemini-1.5-flash-8b"));
}

#[test]
fn test_get_tool_definitions() {
    let tools = get_tool_definitions();
    let tool_names: Vec<&str> = tools.iter().map(|t| t.name.as_str()).collect();
    assert!(tool_names.contains(&"list_schemas"));
    assert!(tool_names.contains(&"list_tables"));
    assert!(tool_names.contains(&"list_columns"));
    assert!(tool_names.contains(&"execute_query"));
    assert!(tool_names.contains(&"list_connections"));
}

#[test]
fn test_to_gemini_functions() {
    let tools = get_tool_definitions();
    let gemini_funcs = to_gemini_functions(&tools);
    assert_eq!(gemini_funcs.len(), tools.len());
    for func in gemini_funcs {
        assert!(!func.name.is_empty());
        assert!(!func.description.is_empty());
        assert!(func.parameters.properties.len() <= 2);
    }
}

#[test]
fn openai_functions_match_gemini_functions() {
    let tools = get_tool_definitions();
    let g = to_gemini_functions(&tools);
    let o = to_openai_functions(&tools);
    assert_eq!(g.len(), o.len());
    for (a, b) in g.iter().zip(o.iter()) {
        assert_eq!(a.name, b.name);
    }
}

#[test]
fn test_execute_query_tool_has_sql_param() {
    let tools = get_tool_definitions();
    let execute_query = tools.iter().find(|t| t.name == "execute_query").unwrap();
    let sql_param = execute_query.parameters.iter().find(|p| p.name == "sql");
    assert!(sql_param.is_some());
    assert!(sql_param.unwrap().required);
}

#[test]
fn tool_dispatch_by_name() {
    assert!(matches!(db_tool_for("list_schemas"), Ok(DbTool::ListSchemas)));
    assert!(matches!(db_tool_for("get_active_connection"), Ok(DbTool::GetActiveConnection)));
    match db_tool_for("drop_table") {
        Err(ToolError::UnknownTool(n)) => assert_eq!(n, "drop_table"),
        _ => panic!("unknown tool expected"),
    }
}

#[test]
fn catalog_sql_is_upper_case_and_quoted() {
    let c = call("list_tables", vec![("schema", ToolArg::Text("o'hr".to_string()))]);
    let q = catalog_query(&DbTool::ListTables, &c).unwrap().unwrap();
    assert_eq!(
        q,
        "SELECT table_name, num_rows, TO_CHAR(last_analyzed, 'YYYY-MM-DD') as last_analyzed FROM all_tables WHERE owner = 'O''HR' ORDER BY table_name"
    );
    let c = call(
        "list_columns",
        vec![("schema", ToolArg::Text("hr".to_string())), ("table", ToolArg::Text("emp".to_string()))],
    );
    let q = catalog_query(&DbTool::ListColumns, &c).unwrap().unwrap();
    assert_eq!(
        q,
        "SELECT column_name, data_type, data_length, nullable, column_id FROM all_tab_columns WHERE owner = 'HR' AND table_name = 'EMP' ORDER BY column_id"
    );
    let missing = call("list_columns", vec![("schema", ToolArg::Text("hr".to_string()))]);
    match catalog_query(&DbTool::ListColumns, &missing) {
        Err(ToolError::MissingParameter(p)) => assert_eq!(p, "table"),
        _ => panic!("missing table expected"),
    }
    assert!(matches!(catalog_query(&DbTool::ExecuteQuery, &missing), Ok(None)));
}

#[test]
fn query_row_limit_caps_at_thousand() {
    assert_eq!(query_row_limit(&call("execute_query", vec![])), 100);
    assert_eq!(query_row_limit(&call("execute_query", vec![("max_rows", ToolArg::Count(50))])), 50);
    assert_eq!(query_row_limit(&call("execute_query", vec![("max_rows", ToolArg::Count(5000))])), 1000);
}

#[test]
fn executed_results() {
    let c = call("list_schemas", vec![]);
    let ok = executed(&c, Ok("{\"count\":0}".to_string()));
    assert!(ok.success);
    assert_eq!(ok.data_json, "{\"count\":0}");
    assert_eq!(ok.tool_call_id, "test-1");
    let bad = executed(&c, Err(ToolError::NoConnection));
    assert!(!bad.success);
    assert_eq!(bad.data_json, "null");
    assert_eq!(bad.error.as_deref(), Some("No active connection"));
}

#[test]
fn openapi_routes() {
    let (m, url) = openapi_route("http://127.0.0.1:3030", "get_jira_list").unwrap();
    assert!(matches!(m, HttpMethod::Get));
    assert_eq!(url, "http://127.0.0.1:3030/jira/list");
    let (m, url) = openapi_route("http://h", "post_agent_chat").unwrap();
    assert!(matches!(m, HttpMethod::Post));
    assert_eq!(url, "http://h/agent/chat");
    let (_, url) = openapi_route("http://h", "get").unwrap();
    assert_eq!(url, "http://h/");
    match openapi_route("http://h", "patch_x") {
        Err(ToolError::InvalidParameter(m)) => assert_eq!(m, "Unsupported HTTP method: patch"),
        _ => panic!("unsupported method expected"),
    }
}

#[test]
fn openapi_query_pairs_and_outcomes() {
    let args = vec![
        ("limit".to_string(), ToolArg::Count(5)),
        ("q".to_string(), ToolArg::Text("a b".to_string())),
        ("f".to_string(), ToolArg::Other("true".to_string())),
    ];
    let p = query_pairs(&args);
    assert_eq!(p[0], ("limit".to_string(), "5".to_string()));
    assert_eq!(p[1], ("q".to_string(), "a b".to_string()));
    assert_eq!(p[2], ("f".to_string(), "true".to_string()));
    let ok = openapi_outcome(HttpReply::Received { success: true, status: "200 OK".to_string(), body: "[]".to_string() });
    assert_eq!(ok.unwrap(), "[]");
    let long = "x".repeat(600);
    match openapi_outcome(HttpReply::Received { success: false, status: "404 Not Found".to_string(), body: long }) {
        Err(e) => assert_eq!(e.message(), format!("Database error: API returned HTTP 404 Not Found: {}", "x".repeat(500))),
        Ok(_) => panic!("failure expected"),
    }
    match openapi_outcome(HttpReply::SendFailed("refused".to_string())) {
        Err(ToolError::DatabaseError(m)) => assert_eq!(m, "HTTP request failed: refused"),
        _ => panic!("failure expected"),
    }
    match openapi_outcome(HttpReply::ReadFailed("eof".to_string())) {
        Err(ToolError::DatabaseError(m)) => assert_eq!(m, "Failed to read response: eof"),
        _ => panic!("failure expected"),
    }
}
