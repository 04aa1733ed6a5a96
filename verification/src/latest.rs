//! The "latest" composite view: the most recent task's last prompt, merged
//! with the diff of its checkpoints.
//!
//! The caller scans the tasks, reads the task's subtasks, finds its
//! checkpoint workspace and runs git; the functions below decide what to
//! read and how the pieces make the response.

use vstd::prelude::*;
use crate::changesignore::clone_strings;
use crate::history::TaskHistorySummary;
use crate::shadow_git::DiffResult;
use crate::subtasks::{SubtaskEntry, SubtasksResponse};
use crate::text::{clone_opt_string, same_text};

verus! {

/// Summary of a subtask for the latest view (no diff).
pub struct SubtaskSummaryItem {
    /// Subtask index (0 = initial task, 1+ = feedback).
    pub subtask_index: usize,
    /// Whether this is the initial task prompt.
    pub is_initial_task: bool,
    /// The prompt text (full, untruncated).
    pub prompt: String,
    /// ISO 8601 timestamp when the subtask was issued.
    pub timestamp: String,
    /// Number of API messages in the subtask's range.
    pub message_count: usize,
    /// Number of tool calls within the subtask.
    pub tool_call_count: usize,
    /// Tool names used (deduplicated, sorted).
    pub tools_used: Vec<String>,
}

/// Composite response of GET /latest.
pub struct LatestResponse {
    pub task_id: String,
    pub subtask_index: Option<usize>,
    pub is_initial_task: Option<bool>,
    pub total_subtasks: usize,
    pub prompt: String,
    pub prompt_timestamp: String,
    pub diff: Option<DiffResult>,
    pub no_diff_reason: Option<String>,
    pub message_range_start: Option<usize>,
    pub message_range_end: Option<usize>,
    pub message_count: usize,
    pub tool_call_count: usize,
    pub tools_used: Vec<String>,
    pub workspace_id: Option<String>,
    pub task_started_at: String,
    pub task_ended_at: Option<String>,
    pub scope: String,
    pub subtasks: Vec<SubtaskSummaryItem>,
}

/// Query parameters of GET /latest.
pub struct LatestQuery {
    /// "subtask" = latest subtask only, "task" = full task diff.
    pub scope: String,
    /// Pathspec exclusion patterns.
    pub exclude: Vec<String>,
}

/// Error response of GET /latest.
pub struct LatestErrorResponse {
    pub error: String,
    pub code: u16,
}

/// The scope used when the query names none: the latest subtask.
pub fn default_scope() -> (r: String)
    ensures
        r@ == "subtask"@,
{
    String::from_str("subtask")
}

/// Why the latest view has no answer.
pub enum LatestError {
    /// Nothing to show (404).
    NotFound(String),
    /// Something failed (500).
    Internal(String),
}

/// The error response for a latest error.
pub fn latest_error_response(e: LatestError) -> (r: LatestErrorResponse)
    ensures
        match e {
            LatestError::NotFound(m) => r.error == m && r.code == 404,
            LatestError::Internal(m) => r.error == m && r.code == 500,
        },
{
    match e {
        LatestError::NotFound(m) => LatestErrorResponse { error: m, code: 404 },
        LatestError::Internal(m) => LatestErrorResponse { error: m, code: 500 },
    }
}

/// The most recent task: the first of the list (which is newest first).
pub fn latest_task(tasks: &[TaskHistorySummary]) -> (r: Result<usize, LatestError>)
    ensures
        tasks@.len() > 0 ==> r == Ok::<usize, LatestError>(0),
        tasks@.len() == 0 ==> (r matches Err(LatestError::NotFound(m)) && m@
            == "No Cline tasks found"@),
{
    if tasks.len() > 0 {
        Ok(0)
    } else {
        Err(LatestError::NotFound(String::from_str("No Cline tasks found")))
    }
}

/// The prompt of the latest view and its context.
pub struct LatestPrompt {
    pub prompt: String,
    pub prompt_timestamp: String,
    pub subtask_index: Option<usize>,
    pub is_initial_task: Option<bool>,
    pub total_subtasks: usize,
    pub message_range_start: Option<usize>,
    pub message_range_end: Option<usize>,
    pub message_count: usize,
    pub tool_call_count: usize,
    pub tools_used: Vec<String>,
}

/// The tool names of a tool breakdown, in its order.
pub open spec fn breakdown_names(b: Seq<(String, usize)>) -> Seq<String> {
    b.map_values(|e: (String, usize)| e.0)
}

/// Whether `p` is the prompt of the last subtask.
pub open spec fn prompt_from_subtask(p: LatestPrompt, s: SubtaskEntry, total: usize) -> bool {
    &&& p.prompt == s.prompt
    &&& p.prompt_timestamp == s.timestamp
    &&& p.subtask_index == Some(s.subtask_index)
    &&& p.is_initial_task == Some(s.is_initial_task)
    &&& p.total_subtasks == total
    &&& p.message_range_start == Some(s.message_range_start)
    &&& p.message_range_end == s.message_range_end
    &&& p.message_count == s.message_count
    &&& p.tool_call_count == s.tool_call_count
    &&& p.tools_used@ == s.tools_used@
}

/// Whether `p` is the task summary's prompt (no subtask data).
pub open spec fn prompt_from_summary(p: LatestPrompt, t: TaskHistorySummary) -> bool {
    &&& p.prompt@ == (match t.task_prompt {
        Some(s) => s@,
        None => Seq::empty(),
    })
    &&& p.prompt_timestamp == t.started_at
    &&& p.subtask_index is None
    &&& p.is_initial_task is None
    &&& p.total_subtasks == 0
    &&& p.message_range_start is None
    &&& p.message_range_end is None
    &&& p.message_count == t.message_count
    &&& p.tool_call_count == t.tool_use_count
    &&& p.tools_used@ == breakdown_names(t.tool_breakdown@)
}

/// The names of a tool breakdown.
fn breakdown_keys(b: &[(String, usize)]) -> (r: Vec<String>)
    ensures
        r@ == breakdown_names(b@),
{
    let mut r: Vec<String> = Vec::new();
    let mut i: usize = 0;
    while i < b.len()
        invariant
            i <= b@.len(),
            r@ == breakdown_names(b@.take(i as int)),
        decreases b@.len() - i,
    {
        r.push(b[i].0.clone());
        i = i + 1;
        assert(breakdown_names(b@.take(i as int)) =~= breakdown_names(b@.take(i - 1)).push(
            b@[i - 1].0,
        ));
    }
    assert(b@.take(i as int) =~= b@);
    r
}

/// The prompt to show: the last subtask's when the task has subtask data
/// with at least one entry, else the task summary's.
pub fn latest_prompt(task: &TaskHistorySummary, subtasks: Option<&SubtasksResponse>) -> (r:
    LatestPrompt)
    ensures
        match subtasks {
            Some(s) => if s.subtasks@.len() > 0 {
                prompt_from_subtask(r, s.subtasks@.last(), s.total_subtasks)
            } else {
                prompt_from_summary(r, *task)
            },
            None => prompt_from_summary(r, *task),
        },
{
    if let Some(s) = subtasks {
        if s.subtasks.len() > 0 {
            let last = &s.subtasks[s.subtasks.len() - 1];
            return LatestPrompt {
                prompt: last.prompt.clone(),
                prompt_timestamp: last.timestamp.clone(),
                subtask_index: Some(last.subtask_index),
                is_initial_task: Some(last.is_initial_task),
                total_subtasks: s.total_subtasks,
                message_range_start: Some(last.message_range_start),
                message_range_end: last.message_range_end,
                message_count: last.message_count,
                tool_call_count: last.tool_call_count,
                tools_used: clone_strings(&last.tools_used),
            };
        }
    }
    let prompt = match &task.task_prompt {
        Some(p) => p.clone(),
        None => String::new(),
    };
    LatestPrompt {
        prompt,
        prompt_timestamp: task.started_at.clone(),
        subtask_index: None,
        is_initial_task: None,
        total_subtasks: 0,
        message_range_start: None,
        message_range_end: None,
        message_count: task.message_count,
        tool_call_count: task.tool_use_count,
        tools_used: breakdown_keys(&task.tool_breakdown),
    }
}

/// Which diff the latest view shows.
pub enum LatestDiffPlan {
    /// The whole task's diff.
    Task,
    /// The diff of one subtask.
    Subtask(usize),
}

/// The diff to compute: the whole task for scope "task" or when no subtask
/// is known, else the subtask's.
pub fn latest_diff_plan(scope: &str, subtask_index: Option<usize>) -> (r: LatestDiffPlan)
    ensures
        scope@ == "task"@ ==> r == LatestDiffPlan::Task,
        scope@ != "task"@ ==> r == (match subtask_index {
            Some(i) => LatestDiffPlan::Subtask(i),
            None => LatestDiffPlan::Task,
        }),
{
    if same_text(scope, "task") {
        LatestDiffPlan::Task
    } else {
        match subtask_index {
            Some(i) => LatestDiffPlan::Subtask(i),
            None => LatestDiffPlan::Task,
        }
    }
}

/// The summary of one subtask.
fn subtask_summary(s: &SubtaskEntry) -> (r: SubtaskSummaryItem)
    ensures
        summary_of(r, *s),
{
    SubtaskSummaryItem {
        subtask_index: s.subtask_index,
        is_initial_task: s.is_initial_task,
        prompt: s.prompt.clone(),
        timestamp: s.timestamp.clone(),
        message_count: s.message_count,
        tool_call_count: s.tool_call_count,
        tools_used: clone_strings(&s.tools_used),
    }
}

/// Whether `r` summarizes the subtask `s`.
pub open spec fn summary_of(r: SubtaskSummaryItem, s: SubtaskEntry) -> bool {
    &&& r.subtask_index == s.subtask_index
    &&& r.is_initial_task == s.is_initial_task
    &&& r.prompt == s.prompt
    &&& r.timestamp == s.timestamp
    &&& r.message_count == s.message_count
    &&& r.tool_call_count == s.tool_call_count
    &&& r.tools_used@ == s.tools_used@
}

/// The summaries of all subtasks, in order (none without subtask data).
pub fn subtask_summaries(subtasks: Option<&SubtasksResponse>) -> (r: Vec<SubtaskSummaryItem>)
    ensures
        match subtasks {
            Some(s) => r@.len() == s.subtasks@.len() && forall|i: int|
                0 <= i < r@.len() ==> summary_of(#[trigger] r@[i], s.subtasks@[i]),
            None => r@.len() == 0,
        },
{
    let mut r: Vec<SubtaskSummaryItem> = Vec::new();
    if let Some(s) = subtasks {
        let mut i: usize = 0;
        while i < s.subtasks.len()
            invariant
                i <= s.subtasks@.len(),
                r@.len() == i,
                forall|k: int| 0 <= k < i ==> summary_of(#[trigger] r@[k], s.subtasks@[k]),
            decreases s.subtasks@.len() - i,
        {
            r.push(subtask_summary(&s.subtasks[i]));
            i = i + 1;
        }
    }
    r
}

/// The index of the last subtask, when there is subtask data with an entry.
pub open spec fn last_subtask_index(subtasks: Option<&SubtasksResponse>) -> Option<usize> {
    match subtasks {
        Some(s) => if s.subtasks@.len() > 0 {
            Some(s.subtasks@.last().subtask_index)
        } else {
            None
        },
        None => None,
    }
}

/// Whether the diff part of a response follows the workspace lookup and
/// the diff outcome: no workspace gives the reason
/// "no_checkpoint_workspace"; a failed diff gives its error as reason.
pub open spec fn diff_part_ok(
    r: LatestResponse,
    workspace: Option<(String, Result<DiffResult, String>)>,
) -> bool {
    match workspace {
        None => r.diff is None && r.workspace_id is None && (r.no_diff_reason matches Some(m)
            && m@ == "no_checkpoint_workspace"@),
        Some((ws, Ok(d))) => r.diff == Some(d) && r.no_diff_reason is None && r.workspace_id
            == Some(ws),
        Some((ws, Err(e))) => r.diff is None && r.no_diff_reason == Some(e) && r.workspace_id
            == Some(ws),
    }
}

/// Assemble the latest response for the task at `task`: its subtask data
/// (if any), and its checkpoint workspace with the outcome of the diff
/// chosen by `latest_diff_plan` (none when no workspace holds the task).
/// The subtask index is that of the last subtask, and none for scope
/// "task".
pub fn resolve_latest(
    scope: &str,
    task: &TaskHistorySummary,
    subtasks: Option<&SubtasksResponse>,
    workspace: Option<(String, Result<DiffResult, String>)>,
) -> (r: LatestResponse)
    ensures
        r.task_id == task.task_id,
        r.task_started_at == task.started_at,
        r.task_ended_at == task.ended_at,
        r.scope@ == scope@,
        diff_part_ok(r, workspace),
        r.subtask_index == (if scope@ == "task"@ {
            None
        } else {
            last_subtask_index(subtasks)
        }),
        ({
            let p = LatestPrompt {
                prompt: r.prompt,
                prompt_timestamp: r.prompt_timestamp,
                subtask_index: last_subtask_index(subtasks),
                is_initial_task: r.is_initial_task,
                total_subtasks: r.total_subtasks,
                message_range_start: r.message_range_start,
                message_range_end: r.message_range_end,
                message_count: r.message_count,
                tool_call_count: r.tool_call_count,
                tools_used: r.tools_used,
            };
            match subtasks {
                Some(s) => if s.subtasks@.len() > 0 {
                    prompt_from_subtask(p, s.subtasks@.last(), s.total_subtasks)
                } else {
                    prompt_from_summary(p, *task)
                },
                None => prompt_from_summary(p, *task),
            }
        }),
        match subtasks {
            Some(s) => r.subtasks@.len() == s.subtasks@.len() && forall|i: int|
                0 <= i < r.subtasks@.len() ==> summary_of(#[trigger] r.subtasks@[i], s.subtasks@[i]),
            None => r.subtasks@.len() == 0,
        },
{
    let p = latest_prompt(task, subtasks);
    let (diff, no_diff_reason, workspace_id) = match workspace {
        Some((ws, Ok(d))) => (Some(d), None, Some(ws)),
        Some((ws, Err(e))) => (None, Some(e), Some(ws)),
        None => (None, Some(String::from_str("no_checkpoint_workspace")), None),
    };
    let summaries = subtask_summaries(subtasks);
    let subtask_index = if same_text(scope, "task") {
        None
    } else {
        p.subtask_index
    };
    LatestResponse {
        task_id: task.task_id.clone(),
        subtask_index,
        is_initial_task: p.is_initial_task,
        total_subtasks: p.total_subtasks,
        prompt: p.prompt,
        prompt_timestamp: p.prompt_timestamp,
        diff,
        no_diff_reason,
        message_range_start: p.message_range_start,
        message_range_end: p.message_range_end,
        message_count: p.message_count,
        tool_call_count: p.tool_call_count,
        tools_used: p.tools_used,
        workspace_id,
        task_started_at: task.started_at.clone(),
        task_ended_at: clone_opt_string(&task.ended_at),
        scope: String::from_str(scope),
        subtasks: summaries,
    }
}

} // verus!
