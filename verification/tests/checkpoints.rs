use cline_xray::changes::{
    count_commits_and_tasks, find_git_dir, git_dir_missing, require_workspace, select_subtask_steps,
    workspace_not_found, ChangesCache,
};
use cline_xray::diff_run::{DiffKind, DiffPhase, DiffRun, DiffStep};
use cline_xray::shadow_git::{
    count_tasks_and_latest, git_command_line, git_diff_args, list_steps_for_task, map_subtask_ranges,
    parse_checkpoint_log, parse_numstat, step_diff_refs, steps_cache_key, task_commits_chronological,
    task_diff_refs, TasksResponse, WorkspaceInfo, WorkspacesResponse,
};
use cline_xray::task_groups::{
    changed_file_count, commit_file_count, group_task_commits, list_tasks_for_workspace, pick_git_dir,
    root_commit_file_count, sort_most_recent_first, workspace_info, GitRun,
};

const LOG: &str = "h3|checkpoint-ws1-taskB|2024-01-03T00:00:00+00:00\n\
h2|checkpoint-ws1-taskA|2024-01-02T00:00:00+00:00\n\
hx|unrelated commit|2024-01-01T12:00:00+00:00\n\
h1|checkpoint-ws1-taskA|2024-01-01T00:00:00+00:00\n\
h0|checkpoint-ws1-|2023-12-31T00:00:00+00:00";

fn ws(id: &str, last: &str) -> WorkspaceInfo {
    WorkspaceInfo {
        id: id.to_string(),
        git_dir: format!("/cp/{}/.git", id),
        active: true,
        task_count: 1,
        last_modified: last.to_string(),
    }
}

#[test]
fn checkpoint_log_parsing() {
    let commits = parse_checkpoint_log(LOG);
    let ids: Vec<&str> = commits.iter().map(|c| c.task_id.as_str()).collect();
    assert_eq!(ids, vec!["taskB", "taskA", "taskA"]);
    assert_eq!(commits[0].hash, "h3");
    assert_eq!(commits[2].timestamp, "2024-01-01T00:00:00+00:00");
    let (n, latest) = count_tasks_and_latest(&commits);
    assert_eq!(n, 2);
    assert_eq!(latest, "2024-01-03T00:00:00+00:00");
}

#[test]
fn steps_are_chronological_and_numbered() {
    let commits = parse_checkpoint_log(LOG);
    let task = task_commits_chronological(&commits, "taskA");
    assert_eq!(task.iter().map(|c| c.hash.as_str()).collect::<Vec<_>>(), vec!["h1", "h2"]);
    let steps = list_steps_for_task("taskA", "ws1", &task, &[3, 1]);
    assert_eq!(steps[0].index, 1);
    assert_eq!(steps[1].index, 2);
    assert_eq!(steps[0].subject, "checkpoint-ws1-taskA");
    assert_eq!(steps[1].files_changed, 1);
}

#[test]
fn step_subject_is_the_commit_subject() {
    let log = "h2|checkpoint-other-taskA|2024-01-02T00:00:00+00:00\nh1|checkpoint-ws1-taskA|2024-01-01T00:00:00+00:00";
    let commits = parse_checkpoint_log(log);
    assert_eq!(commits[0].subject, "checkpoint-other-taskA");
    let task = task_commits_chronological(&commits, "taskA");
    let steps = list_steps_for_task("taskA", "ws1", &task, &[1, 1]);
    assert_eq!(steps[0].subject, "checkpoint-ws1-taskA");
    assert_eq!(steps[1].subject, "checkpoint-other-taskA");
}

#[test]
fn step_and_task_refs() {
    let commits = parse_checkpoint_log(LOG);
    let task = task_commits_chronological(&commits, "taskA");
    assert_eq!(step_diff_refs(&task, 1).unwrap(), ("h1^".to_string(), "h1".to_string()));
    assert_eq!(step_diff_refs(&task, 2).unwrap(), ("h2^".to_string(), "h2".to_string()));
    assert_eq!(step_diff_refs(&task, 3).unwrap_err(), "Step index 3 out of range (task has 2 steps)");
    assert_eq!(step_diff_refs(&task, 0).unwrap_err(), "Step index 0 out of range (task has 2 steps)");
    assert_eq!(task_diff_refs(&task, "taskA").unwrap(), ("h1^".to_string(), "h2".to_string()));
    assert_eq!(task_diff_refs(&[], "nope").unwrap_err(), "No checkpoint commits found for task 'nope'");
}

#[test]
fn numstat_parsing() {
    let files = parse_numstat("3\t0\tsrc/new.rs\n0\t5\told.rs\n2\t2\tmod.rs\n-\t-\timg.png\n\nbad line\n");
    assert_eq!(files.len(), 4);
    assert_eq!((files[0].path.as_str(), files[0].status.as_str()), ("src/new.rs", "added"));
    assert_eq!(files[1].status, "deleted");
    assert_eq!(files[2].status, "modified");
    assert_eq!((files[3].lines_added, files[3].status.as_str()), (0, "modified"));
}

#[test]
fn diff_args_and_command_lines() {
    let ex = vec!["*.lock".to_string()];
    let args = git_diff_args("/g", true, "a^", "b", &ex);
    assert_eq!(
        args,
        vec!["--git-dir", "/g", "diff", "--numstat", "a^", "b", "--", ":/", ":(exclude)*.lock"]
    );
    assert_eq!(git_command_line(&git_diff_args("/g", false, "a", "b", &[])), "git --git-dir /g diff a b");
}

#[test]
fn diff_run_happy_path() {
    let (mut run, step) = DiffRun::start(DiffKind::Task, "/g".to_string(), "a^".to_string(), "b".to_string(), vec![]);
    match step {
        DiffStep::Run(args) => assert_eq!(args, vec!["--git-dir", "/g", "diff", "--numstat", "a^", "b"]),
        _ => panic!("numstat expected"),
    }
    match run.advance(GitRun::Ran { success: true, stdout: "1\t0\tx.rs\n".to_string() }) {
        DiffStep::Run(args) => assert_eq!(args, vec!["--git-dir", "/g", "diff", "a^", "b"]),
        _ => panic!("patch expected"),
    }
    match run.advance(GitRun::Ran { success: true, stdout: "PATCH".to_string() }) {
        DiffStep::Done(d) => {
            assert_eq!(d.patch, "PATCH");
            assert_eq!(d.files.len(), 1);
            assert_eq!(d.from_ref, "a^");
            assert_eq!(d.git_commands, vec!["git --git-dir /g diff --numstat a^ b", "git --git-dir /g diff a^ b"]);
        },
        _ => panic!("done expected"),
    }
    assert!(matches!(run.phase, DiffPhase::Finished));
}

#[test]
fn diff_run_fallbacks_are_recorded_by_kind() {
    for kind in [DiffKind::Step, DiffKind::Task, DiffKind::Subtask] {
        let recorded_numstat = !matches!(kind, DiffKind::Subtask);
        let recorded_patch = matches!(kind, DiffKind::Step);
        let (mut run, _) = DiffRun::start(kind, "/g".to_string(), "r^".to_string(), "r".to_string(), vec![]);
        match run.advance(GitRun::Ran { success: false, stdout: String::new() }) {
            DiffStep::Run(args) => assert_eq!(args, vec!["--git-dir", "/g", "diff-tree", "--numstat", "--no-commit-id", "-r", "r"]),
            _ => panic!("fallback expected"),
        }
        run.advance(GitRun::Ran { success: false, stdout: "4\t0\tf\n".to_string() });
        match run.advance(GitRun::Ran { success: false, stdout: "partial".to_string() }) {
            DiffStep::Run(args) => assert_eq!(args, vec!["--git-dir", "/g", "diff-tree", "-p", "--no-commit-id", "-r", "r"]),
            _ => panic!("patch fallback expected"),
        }
        match run.advance(GitRun::NotStarted("no git".to_string())) {
            DiffStep::Done(d) => {
                assert_eq!(d.patch, "partial");
                assert_eq!(d.files.len(), 1);
                let expected = 2 + recorded_numstat as usize + recorded_patch as usize;
                assert_eq!(d.git_commands.len(), expected);
                if recorded_numstat {
                    assert_eq!(d.git_commands[1], "git --git-dir /g diff-tree --numstat --no-commit-id -r r (fallback)");
                }
            },
            _ => panic!("done expected"),
        }
    }
}

#[test]
fn diff_run_failures() {
    let (mut run, _) = DiffRun::start(DiffKind::Step, "/g".to_string(), "a".to_string(), "b".to_string(), vec![]);
    match run.advance(GitRun::NotStarted("boom".to_string())) {
        DiffStep::Failed(m) => assert_eq!(m, "Failed to run git diff --numstat: boom"),
        _ => panic!("failure expected"),
    }
    let (mut run, _) = DiffRun::start(DiffKind::Task, "/g".to_string(), "a".to_string(), "b".to_string(), vec!["x".to_string()]);
    match run.advance(GitRun::Ran { success: false, stdout: String::new() }) {
        DiffStep::Run(args) => assert_eq!(args.last().unwrap(), ":(exclude)x"),
        _ => panic!("fallback expected"),
    }
    match run.advance(GitRun::NotStarted("gone".to_string())) {
        DiffStep::Failed(m) => assert_eq!(m, "Failed to run git diff-tree: gone"),
        _ => panic!("failure expected"),
    }
}

#[test]
fn grouping_and_task_list() {
    let commits = parse_checkpoint_log(LOG);
    let groups = group_task_commits(&commits);
    assert_eq!(groups.len(), 2);
    let a = groups.iter().find(|g| g.task_id == "taskA").unwrap();
    assert_eq!(a.hashes, vec!["h2", "h1"]);
    assert_eq!(a.last_modified, "2024-01-02T00:00:00+00:00");
    let files: Vec<usize> = groups.iter().map(|g| if g.task_id == "taskA" { 2 } else { 7 }).collect();
    let tasks = list_tasks_for_workspace("ws1", &groups, &files);
    assert_eq!(tasks[0].task_id, "taskB");
    assert_eq!(tasks[0].files_changed, 7);
    assert_eq!(tasks[1].steps, 2);
    assert_eq!(tasks[1].workspace_id, "ws1");
}

#[test]
fn workspaces_most_recent_first() {
    let sorted = sort_most_recent_first(vec![
        ws("a", "2024-01-01"),
        ws("b", "2024-03-01"),
        ws("c", "2024-02-01"),
        ws("d", ""),
    ]);
    let ids: Vec<&str> = sorted.iter().map(|w| w.id.as_str()).collect();
    assert_eq!(ids, vec!["b", "c", "a", "d"]);
}

#[test]
fn workspace_discovery_pieces() {
    assert_eq!(pick_git_dir(true, true), Some((".git", true)));
    assert_eq!(pick_git_dir(false, true), Some((".git_disabled", false)));
    assert_eq!(pick_git_dir(false, false), None);
    let commits = parse_checkpoint_log(LOG);
    let w = workspace_info("ws1".to_string(), "/cp/ws1/.git".to_string(), true, &commits);
    assert_eq!(w.task_count, 2);
    assert_eq!(w.last_modified, "2024-01-03T00:00:00+00:00");
}

#[test]
fn changed_files_are_counted_once() {
    let outs = vec!["a.rs\nb.rs\n".to_string(), "b.rs\n\nc.rs".to_string(), String::new()];
    assert_eq!(changed_file_count(&outs), 3);
    assert_eq!(changed_file_count(&[]), 0);
    assert_eq!(commit_file_count(&GitRun::Ran { success: true, stdout: "x\n\ny\n".to_string() }), Some(2));
    assert_eq!(commit_file_count(&GitRun::Ran { success: false, stdout: "x\n".to_string() }), None);
    assert_eq!(commit_file_count(&GitRun::NotStarted("e".to_string())), Some(0));
    assert_eq!(root_commit_file_count(&GitRun::Ran { success: false, stdout: "x\ny".to_string() }), 2);
    assert_eq!(root_commit_file_count(&GitRun::NotStarted("e".to_string())), 0);
}

#[test]
fn subtask_ranges_and_selection() {
    // Subtasks start at 10 and 20; steps at 5, 12, 15, 25.
    let r = map_subtask_ranges(&[10, 20], &[5, 12, 15, 25]);
    assert_eq!(r, vec![(0, 1, 2), (1, 3, 3)]);
    assert_eq!(select_subtask_steps("t", 1, 2, 4, &r), Ok((3, 3)));
    assert_eq!(select_subtask_steps("t", 2, 2, 4, &r).unwrap_err(), "Subtask index 2 out of range (task has 2 subtasks)");
    assert_eq!(select_subtask_steps("t", 0, 2, 0, &r).unwrap_err(), "No checkpoint steps for task 't'");
    let none = map_subtask_ranges(&[30], &[5]);
    assert_eq!(select_subtask_steps("t", 0, 1, 1, &none).unwrap_err(), "No checkpoint steps found within subtask #0's time window");
}

#[test]
fn changes_errors_and_lookups() {
    assert!(require_workspace("w", false).is_ok());
    let e = require_workspace("", true).unwrap_err();
    assert_eq!((e.code, e.error.as_str()), (400, "Missing required 'workspace' field"));
    assert_eq!(workspace_not_found("w").error, "Workspace 'w' not found in checkpoint repositories");
    assert_eq!(git_dir_missing("/g"), "Git directory does not exist (Cline may have disabled it): /g");
    let list = vec![ws("a", "1"), ws("b", "2")];
    assert_eq!(find_git_dir(&list, "b"), Some("/cp/b/.git".to_string()));
    assert_eq!(find_git_dir(&list, "z"), None);
    assert_eq!(count_commits_and_tasks("checkpoint-w-t1\ncheckpoint-w-t1\ncheckpoint-w-t2"), (3, 2));
    assert_eq!(steps_cache_key("w", "t"), "w:t");
}

#[test]
fn changes_cache_read_after_write_and_invalidate() {
    let mut cache = ChangesCache::new(Some(WorkspacesResponse { workspaces: vec![ws("a", "1")], checkpoints_root: "/cp".to_string() }));
    assert_eq!(cache.cached_git_dir("a"), Some("/cp/a/.git".to_string()));
    cache.store_tasks("a".to_string(), TasksResponse { workspace_id: "a".to_string(), tasks: vec![] });
    assert!(cache.cached_tasks("a", None).is_some());
    assert!(cache.cached_tasks("a", Some(true)).is_none());
    assert!(cache.cached_tasks("b", None).is_none());
    cache.invalidate_workspace("a");
    assert!(cache.cached_tasks("a", None).is_none());
    assert!(cache.cached_workspaces(None).is_none());
}
