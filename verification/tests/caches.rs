use cline_xray::changes::no_subtask_data;
use cline_xray::gemini::{cache_is_fresh, models_after_refresh, refresh_models, ApiModel, ModelCache, ModelsFetch};
use cline_xray::jira::{IssueCache, IssueDetails};
use cline_xray::summary::task_list_response;

fn api_model(name: &str, methods: &[&str]) -> ApiModel {
    ApiModel {
        name: name.to_string(),
        display_name: None,
        description: None,
        input_token_limit: None,
        supported_generation_methods: methods.iter().map(|m| m.to_string()).collect(),
    }
}

fn details(key: &str, summary: &str) -> IssueDetails {
    IssueDetails {
        key: key.to_string(),
        summary: summary.to_string(),
        description: None,
        status: "Open".to_string(),
        status_category: "To Do".to_string(),
        resolution: None,
        issue_type: "Bug".to_string(),
        priority: "None".to_string(),
        assignee: None,
        reporter: None,
        created: String::new(),
        updated: String::new(),
        labels: vec![],
        components: vec![],
    }
}

#[test]
fn model_refresh_stores_generating_models() {
    let mut cache = ModelCache::new();
    assert!(!cache_is_fresh(&cache, 0));
    let fetch = ModelsFetch::Parsed(vec![
        api_model("models/gemini-2.0-flash", &["generateContent"]),
        api_model("models/embedding-001", &["embedContent"]),
    ]);
    let models = refresh_models(&mut cache, fetch, 1_000).unwrap();
    assert_eq!(models.len(), 1);
    assert_eq!(models[0].id, "gemini-2.0-flash");
    assert_eq!(models[0].name, "gemini-2.0-flash");
    assert_eq!(models[0].context_window, 1_000_000);
    assert!(models[0].recommended);
    assert_eq!(cache.models.len(), 1);
    assert_eq!(cache.fetched_at_ms, Some(1_000));
    assert!(cache_is_fresh(&cache, 1_000 + 1_000));
    assert!(!cache_is_fresh(&cache, 1_000 + 24 * 3600 * 1000 + 1));
}

#[test]
fn model_refresh_failures_keep_the_cache() {
    let mut cache = ModelCache::new();
    let e = refresh_models(&mut cache, ModelsFetch::NoKey, 5).unwrap_err();
    assert_eq!(e, "GEMINI_API_KEY not configured");
    let e = refresh_models(&mut cache, ModelsFetch::HttpError { status: "403 Forbidden".to_string(), body: "no".to_string() }, 5).unwrap_err();
    assert_eq!(e, "API error HTTP 403 Forbidden: no");
    assert!(cache.fetched_at_ms.is_none());
    let models = models_after_refresh(&mut cache, Err(e));
    assert!(models.is_empty());
    assert_eq!(cache.fetch_error.as_deref(), Some("API error HTTP 403 Forbidden: no"));
}

#[test]
fn issue_cache_read_after_write() {
    let mut cache = IssueCache::new();
    assert!(cache.get("A-1").is_none());
    cache.insert("A-1".to_string(), details("A-1", "first"));
    cache.insert("B-2".to_string(), details("B-2", "other"));
    cache.insert("A-1".to_string(), details("A-1", "second"));
    assert_eq!(cache.get("A-1").unwrap().summary, "second");
    assert_eq!(cache.get("B-2").unwrap().summary, "other");
    assert!(cache.get("C-3").is_none());
}

#[test]
fn empty_task_list_and_messages() {
    let list = task_list_response("NOT FOUND".to_string(), vec![]);
    assert_eq!(list.total_tasks, 0);
    assert!(list.aggregate_tool_breakdown.is_empty());
    assert_eq!(list.tasks_root, "NOT FOUND");
    assert_eq!(no_subtask_data("7"), "No subtask data for task '7' (ui_messages.json not found or no task entry)");
}
