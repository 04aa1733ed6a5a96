use cline_xray::detail::{parse_api_history_detail, task_prompt, RawFileInContext, RawModelUsage, RawEnvironmentEntry, RawTaskMetadata};
use cline_xray::history::{apply_filters, HistoryTasksQuery, TaskHistoryListResponse, TaskHistorySummary};
use cline_xray::logs::authorized;
use cline_xray::messages::{
    extract_tool_result_text, parse_single_message, parse_task_messages, RawApiMessage, RawContentBlock,
    TaskMessagesQuery, ToolResultContent,
};
use cline_xray::latest::{default_scope, resolve_latest};
use cline_xray::stats::compute_stats;
use cline_xray::subtasks::{parse_task_subtasks, ApiMessageTools, RawUiMessage, SubtaskEntry, SubtasksResponse};
use cline_xray::summary::{
    focus_chain_file, started_at_of, summarize_api_history, summarize_task_metadata, task_list_response,
    task_summary, ui_end_time,
};
use cline_xray::task_index::{
    messages_paging, message_not_found, scan_failed, task_not_found, validate_task_id, view_failed,
    HistorySource, TaskIndexCache,
};

fn text(t: &str) -> RawContentBlock {
    RawContentBlock::Text { text: t.to_string() }
}

fn tool_use(id: &str, name: &str) -> RawContentBlock {
    RawContentBlock::ToolUse {
        id: id.to_string(),
        name: name.to_string(),
        input_json: "{}".to_string(),
        input_pretty: "{}".to_string(),
    }
}

fn api(role: &str, content: Vec<RawContentBlock>) -> RawApiMessage {
    RawApiMessage { role: role.to_string(), content }
}

fn conversation() -> Vec<RawApiMessage> {
    vec![
        api("user", vec![text("Fix the bug")]),
        api(
            "assistant",
            vec![
                RawContentBlock::Thinking { thinking: "hmm".to_string() },
                tool_use("t1", "read_file"),
                tool_use("t2", "write_to_file"),
            ],
        ),
        api(
            "user",
            vec![RawContentBlock::ToolResult {
                tool_use_id: "t1".to_string(),
                content: ToolResultContent::Parts(vec![Some("a".to_string()), None, Some("b".to_string())]),
                is_error: None,
            }],
        ),
        api("assistant", vec![tool_use("t3", "read_file"), text("done")]),
    ]
}

fn summary(id: &str, started: &str, model: Option<&str>, bytes: u64, tools: Vec<(&str, usize)>) -> TaskHistorySummary {
    TaskHistorySummary {
        task_id: id.to_string(),
        started_at: started.to_string(),
        ended_at: None,
        message_count: 2,
        tool_use_count: tools.iter().map(|t| t.1).sum(),
        thinking_count: 1,
        tool_breakdown: tools.into_iter().map(|(n, c)| (n.to_string(), c)).collect(),
        model_id: model.map(|m| m.to_string()),
        model_provider: None,
        files_in_context: 3,
        files_edited: 1,
        files_read: 2,
        cline_version: None,
        api_history_size_bytes: bytes,
        ui_messages_size_bytes: 10,
        has_focus_chain: false,
        task_prompt: None,
    }
}

#[test]
fn api_history_summary_counts() {
    let conv = conversation();
    let s = summarize_api_history(Some(conv.as_slice()));
    assert_eq!(s.message_count, 4);
    assert_eq!(s.tool_use_count, 3);
    assert_eq!(s.thinking_count, 1);
    assert_eq!(s.tool_breakdown, vec![("read_file".to_string(), 2), ("write_to_file".to_string(), 1)]);
    assert_eq!(s.task_prompt.as_deref(), Some("Fix the bug"));
    let none = summarize_api_history(None);
    assert_eq!((none.message_count, none.tool_use_count), (0, 0));
    assert_eq!(task_prompt(&conv).as_deref(), Some("Fix the bug"));
}

#[test]
fn detail_joins_results_to_calls() {
    let conv = conversation();
    let stamps = vec![None; conv.len()];
    let d = parse_api_history_detail(&conv, &stamps);
    assert_eq!(d.tool_calls.len(), 3);
    assert_eq!(d.tool_calls[0].result_summary.as_deref(), Some("a\nb"));
    assert!(d.tool_calls[1].result_summary.is_none());
    assert_eq!(d.tool_calls[2].message_index, 3);
}

#[test]
fn tool_result_text_forms() {
    assert_eq!(extract_tool_result_text(&ToolResultContent::Text("x".to_string())), "x");
    assert_eq!(extract_tool_result_text(&ToolResultContent::Other("42".to_string())), "42");
    assert_eq!(
        extract_tool_result_text(&ToolResultContent::Parts(vec![Some("a".to_string()), Some("b".to_string())])),
        "a\nb"
    );
}

#[test]
fn message_pages_and_single_messages() {
    let conv = conversation();
    let stamps = vec![None; conv.len()];
    let page = parse_task_messages("1", &conv, &stamps, 1, 1, Some("user"));
    assert_eq!(page.total_messages, 4);
    assert_eq!(page.filtered_count, 2);
    assert_eq!(page.messages.len(), 1);
    assert_eq!(page.messages[0].index, 2);
    assert!(!page.has_more);
    assert!(parse_single_message("1", &conv, &stamps, 9).is_none());
    let m = parse_single_message("1", &conv, &stamps, 1).unwrap();
    assert_eq!(m.content.len(), 3);
    assert_eq!(m.total_messages, 4);
}

#[test]
fn message_pages_tile_the_conversation() {
    let conv = conversation();
    let stamps = vec![None; conv.len()];
    let mut seen = Vec::new();
    let mut offset = 0;
    loop {
        let page = parse_task_messages("1", &conv, &stamps, offset, 3, None);
        seen.extend(page.messages.iter().map(|m| m.index));
        if !page.has_more {
            assert!(page.messages.len() <= 3);
            break;
        }
        assert_eq!(page.messages.len(), 3);
        offset += 3;
    }
    assert_eq!(seen, vec![0, 1, 2, 3]);
    let whole = parse_task_messages("1", &conv, &stamps, 0, 4, None);
    assert_eq!(whole.messages.iter().map(|m| m.index).collect::<Vec<_>>(), seen);
}

#[test]
fn metadata_summary() {
    let meta = RawTaskMetadata {
        files_in_context: vec![
            RawFileInContext { path: "a".to_string(), record_state: None, record_source: Some("cline_edited".to_string()), cline_read_date: None, cline_edit_date: None, user_edit_date: None },
            RawFileInContext { path: "b".to_string(), record_state: None, record_source: Some("read_tool".to_string()), cline_read_date: None, cline_edit_date: None, user_edit_date: None },
            RawFileInContext { path: "c".to_string(), record_state: None, record_source: Some("read_tool".to_string()), cline_read_date: None, cline_edit_date: None, user_edit_date: None },
        ],
        model_usage: vec![RawModelUsage { ts: None, model_id: Some("alpha".to_string()), model_provider_id: Some("vendor-x".to_string()), mode: None }],
        environment_history: vec![RawEnvironmentEntry { ts: None, os_name: None, os_version: None, host_name: None, host_version: None, cline_version: Some("3.1".to_string()) }],
    };
    let m = summarize_task_metadata(Some(&meta));
    assert_eq!(m.model_id.as_deref(), Some("alpha"));
    assert_eq!(m.model_provider.as_deref(), Some("vendor-x"));
    assert_eq!(m.cline_version.as_deref(), Some("3.1"));
    assert_eq!((m.files_in_context, m.files_edited, m.files_read), (3, 1, 2));
    let empty = summarize_task_metadata(None);
    assert!(empty.model_id.is_none());
}

#[test]
fn task_times_and_summary() {
    assert_eq!(started_at_of("abc"), "unknown");
    assert_ne!(started_at_of("1700000000000"), "unknown");
    assert!(ui_end_time(Some(&[][..])).is_none());
    assert!(ui_end_time(None).is_none());
    let ui = vec![RawUiMessage { ts: 1700000000000, msg_type: None, conversation_history_index: None, say: None, text: None }];
    assert_eq!(ui_end_time(Some(ui.as_slice())), Some(started_at_of("1700000000000")));
    assert_eq!(focus_chain_file("17"), "focus_chain_taskid_17.md");
    let conv = conversation();
    let s = task_summary("x", 5, 6, true, summarize_api_history(Some(conv.as_slice())), summarize_task_metadata(None), None);
    assert_eq!(s.started_at, "unknown");
    assert_eq!(s.api_history_size_bytes, 5);
    assert!(s.has_focus_chain);
    assert_eq!(s.tool_use_count, 3);
}

#[test]
fn task_list_totals_and_order() {
    let list = task_list_response(
        "/root".to_string(),
        vec![
            summary("1", "2024-01-01", Some("m1"), 100, vec![("read_file", 2)]),
            summary("2", "2024-03-01", Some("m2"), 50, vec![("write", 1), ("read_file", 3)]),
            summary("3", "2024-02-01", None, 7, vec![]),
        ],
    );
    let ids: Vec<&str> = list.tasks.iter().map(|t| t.task_id.as_str()).collect();
    assert_eq!(ids, vec!["2", "3", "1"]);
    assert_eq!(list.total_tasks, 3);
    assert_eq!(list.total_api_history_bytes, 157);
    assert_eq!(list.total_messages, 6);
    assert_eq!(list.total_tool_calls, 6);
    assert_eq!(list.aggregate_tool_breakdown, vec![("read_file".to_string(), 5), ("write".to_string(), 1)]);
    assert_eq!(list.tasks_root, "/root");
}

fn list_of(tasks: Vec<TaskHistorySummary>) -> TaskHistoryListResponse {
    task_list_response("/r".to_string(), tasks)
}

#[test]
fn filters_model_offset_limit() {
    let list = list_of(vec![
        summary("1", "2024-01-03", Some("alpha-3"), 1, vec![]),
        summary("2", "2024-01-02", Some("gpt-4"), 1, vec![]),
        summary("3", "2024-01-01", Some("alpha-2"), 1, vec![]),
    ]);
    let r = apply_filters(list, &HistoryTasksQuery { refresh: None, model: Some("alpha".to_string()), limit: Some(1), offset: Some(1) });
    assert_eq!(r.total_tasks, 3);
    assert_eq!(r.tasks.len(), 1);
    assert_eq!(r.tasks[0].task_id, "3");
    let list = list_of(vec![summary("1", "a", None, 1, vec![])]);
    let r = apply_filters(list, &HistoryTasksQuery { refresh: None, model: None, limit: None, offset: Some(5) });
    assert!(r.tasks.is_empty());
    assert_eq!(r.total_tasks, 1);
}

#[test]
fn stats_over_the_list() {
    let list = list_of(vec![
        summary("1", "2024-01-01", Some("m1"), 100, vec![("read_file", 2)]),
        summary("2", "2024-03-01", Some("m1"), 50, vec![]),
        summary("3", "2024-02-01", Some("m2"), 70, vec![]),
    ]);
    let s = compute_stats(&list);
    assert_eq!(s.total_tasks, 3);
    assert_eq!(s.min_task_size_bytes, 50);
    assert_eq!(s.max_task_size_bytes, 100);
    assert_eq!(s.earliest_task.as_deref(), Some("2024-01-01"));
    assert_eq!(s.latest_task.as_deref(), Some("2024-03-01"));
    assert_eq!(s.total_thinking_blocks, 3);
    assert_eq!(s.total_files_in_context, 9);
    assert_eq!(s.total_files_edited, 3);
    assert_eq!(s.total_ui_messages_bytes, 30);
    let models: Vec<(&str, usize)> = s.model_usage.iter().map(|(m, c)| (m.as_str(), *c)).collect();
    assert!(models.contains(&("m1", 2)) && models.contains(&("m2", 1)));
    let empty = compute_stats(&list_of(vec![]));
    assert_eq!((empty.min_task_size_bytes, empty.max_task_size_bytes), (0, 0));
    assert!(empty.earliest_task.is_none());
}

#[test]
fn subtask_detection() {
    let ui = vec![
        RawUiMessage { ts: 1000, msg_type: None, conversation_history_index: Some(-1), say: Some("task".to_string()), text: Some("Build it".to_string()) },
        RawUiMessage { ts: 2000, msg_type: None, conversation_history_index: Some(1), say: Some("user_feedback".to_string()), text: Some("now test".to_string()) },
        RawUiMessage { ts: 2500, msg_type: None, conversation_history_index: Some(2), say: Some("user_feedback".to_string()), text: Some("   ".to_string()) },
    ];
    let api_tools = vec![
        ApiMessageTools { tool_names: vec![] },
        ApiMessageTools { tool_names: vec!["write".to_string()] },
        ApiMessageTools { tool_names: vec![] },
        ApiMessageTools { tool_names: vec!["exec".to_string(), "exec".to_string()] },
    ];
    let r = parse_task_subtasks("9", &ui, &api_tools);
    assert_eq!(r.total_subtasks, 2);
    assert!(r.has_subtasks);
    assert!(r.subtasks[0].is_initial_task);
    assert_eq!(r.subtasks[1].prompt, "now test");
    assert_eq!(r.subtasks[1].tools_used, vec!["exec".to_string()]);
}

#[test]
fn index_cache_single_flight() {
    let mut cache = TaskIndexCache::new(None);
    assert!(cache.cached(false).is_none());
    let g = cache.generation();
    assert!(cache.after_wait(g, false).is_none());
    cache.store(list_of(vec![]));
    assert!(cache.cached(false).is_some());
    assert!(cache.cached(true).is_none());
    assert!(cache.after_wait(g, true).is_some());
    assert!(cache.after_wait(cache.generation(), true).is_none());
    assert!(cache.after_wait(cache.generation(), false).is_some());
}

#[test]
fn history_errors_and_paging() {
    assert!(validate_task_id("1700000000000").is_ok());
    let e = validate_task_id("17a").unwrap_err();
    assert_eq!((e.code, e.error.as_str()), (400, "Invalid task_id '17a': must be a numeric epoch milliseconds value"));
    assert!(validate_task_id("").is_err());
    assert_eq!(task_not_found("5", HistorySource::Metadata).error, "Task '5' not found or has no task_metadata.json");
    assert_eq!(message_not_found("5", 3).error, "Message index 3 not found in task '5' (task may not exist or index is out of bounds)");
    assert_eq!(view_failed("parse task files", "x").error, "Failed to parse task files: x");
    assert_eq!(scan_failed("boom").code, 500);
    let ok = messages_paging(&TaskMessagesQuery { offset: None, limit: Some(500), role: Some("user".to_string()) }).unwrap();
    assert_eq!((ok.0, ok.1, ok.2.as_deref()), (0, 100, Some("user")));
    let ok = messages_paging(&TaskMessagesQuery { offset: Some(3), limit: None, role: None }).unwrap();
    assert_eq!((ok.0, ok.1), (3, 20));
    let e = messages_paging(&TaskMessagesQuery { offset: None, limit: None, role: Some("system".to_string()) }).unwrap_err();
    assert_eq!(e.error, "Invalid role 'system': must be 'user' or 'assistant'");
}

#[test]
fn bearer_authorization() {
    assert!(authorized("tok", Some("Bearer tok")));
    assert!(!authorized("tok", Some("bearer tok")));
    assert!(!authorized("tok", Some("Bearer tok2")));
    assert!(!authorized("tok", None));
}

#[test]
fn thinking_totals_count_every_block() {
    let raw = vec![
        api(
            "assistant",
            vec![
                RawContentBlock::Thinking { thinking: "abcdef".to_string() },
                RawContentBlock::Thinking { thinking: "xy".to_string() },
            ],
        ),
        api("user", vec![RawContentBlock::Thinking { thinking: "zzz".to_string() }]),
    ];
    let stamps = vec![None; raw.len()];
    let t = cline_xray::timeline::parse_task_thinking("1", &raw, &stamps, Some(4), Some(3));
    assert_eq!(t.total_thinking_blocks, 2);
    assert_eq!(t.total_characters, 8);
    assert_eq!(t.avg_block_length, 4);
    assert_eq!(t.thinking_blocks.len(), 1);
    assert_eq!(t.thinking_blocks[0].thinking, "abc…");
    assert!(t.thinking_blocks[0].is_truncated);
    assert_eq!(t.thinking_blocks[0].full_length, 6);
}

#[test]
fn latest_scope_default_and_task_scope() {
    assert_eq!(default_scope(), "subtask");
    let task = summary("1", "2024-01-01", None, 1, vec![]);
    let entry = |i: usize, p: &str| SubtaskEntry {
        subtask_index: i,
        prompt: p.to_string(),
        timestamp: "t".to_string(),
        is_initial_task: i == 0,
        message_range_start: i,
        message_range_end: Some(i),
        message_count: 1,
        tool_call_count: 0,
        tools_used: vec![],
    };
    let subs = SubtasksResponse {
        task_id: "1".to_string(),
        total_subtasks: 2,
        has_subtasks: true,
        subtasks: vec![entry(0, "first"), entry(1, "again")],
    };
    let r = resolve_latest("task", &task, Some(&subs), None);
    assert!(r.subtask_index.is_none());
    assert_eq!(r.prompt, "again");
    assert_eq!(r.no_diff_reason.as_deref(), Some("no_checkpoint_workspace"));
    let r = resolve_latest("subtask", &task, Some(&subs), None);
    assert_eq!(r.subtask_index, Some(1));
}

#[test]
fn stats_do_not_depend_on_task_order() {
    let tasks = || {
        vec![
            summary("1", "2024-01-01", Some("m1"), 100, vec![]),
            summary("2", "2024-03-01", Some("m2"), 50, vec![]),
            summary("3", "2024-02-01", Some("m1"), 70, vec![]),
        ]
    };
    let list = |ts: Vec<TaskHistorySummary>| TaskHistoryListResponse {
        total_tasks: ts.len(),
        tasks: ts,
        total_api_history_bytes: 220,
        tasks_root: "/r".to_string(),
        aggregate_tool_breakdown: vec![],
        total_tool_calls: 0,
        total_messages: 6,
    };
    let mut reversed = tasks();
    reversed.reverse();
    let a = compute_stats(&list(tasks()));
    let b = compute_stats(&list(reversed));
    assert_eq!((a.min_task_size_bytes, a.max_task_size_bytes), (b.min_task_size_bytes, b.max_task_size_bytes));
    assert_eq!((a.earliest_task.clone(), a.latest_task.clone()), (b.earliest_task.clone(), b.latest_task.clone()));
    assert_eq!(a.total_thinking_blocks, b.total_thinking_blocks);
    let as_map = |u: &Vec<(String, usize)>| u.iter().cloned().collect::<std::collections::BTreeMap<String, usize>>();
    assert_eq!(as_map(&a.model_usage), as_map(&b.model_usage));
    assert_eq!(as_map(&a.model_usage).get("m1"), Some(&2));
}
