//! Shadow-git checkpoint repositories: the parsing of `git log` and
//! `git diff --numstat` output, and the selection of the commits and refs
//! that make up a task's steps and diffs.
//!
//! Running git, and the file system, are left to the caller, which hands
//! over what git printed.

use vstd::prelude::*;
use crate::subtasks::SubtasksResponse;
use crate::text::{
    char_vecs_view, chars_eq, chars_of, decimal, decimal_string, find_char_from, has_prefix,
    is_first_from, lines_of, parse_usize, parse_usize_spec, rfind_char, split_chars, split_lines,
    split_on, starts_with, string_from_chars, strings_view, sub_chars, first_from, last_index,
};

verus! {

/// A discovered checkpoint workspace (a directory under checkpoints/ with a
/// .git).
pub struct WorkspaceInfo {
    /// The workspace-id directory name (e.g. "4184916832").
    pub id: String,
    /// Absolute path to the .git or .git_disabled directory.
    pub git_dir: String,
    /// Whether the git dir is .git (active) or .git_disabled (paused).
    pub active: bool,
    /// Number of tasks found in this workspace.
    pub task_count: usize,
    /// ISO 8601 timestamp of the most recent checkpoint commit.
    pub last_modified: String,
}

/// Response for GET /changes/workspaces.
pub struct WorkspacesResponse {
    /// List of discovered checkpoint workspaces.
    pub workspaces: Vec<WorkspaceInfo>,
    /// The root path that was scanned.
    pub checkpoints_root: String,
}

/// A task summary (group of checkpoint commits sharing a task-id).
pub struct ClineTaskSummary {
    /// The task-id extracted from commit subjects.
    pub task_id: String,
    /// The workspace-id the task belongs to.
    pub workspace_id: String,
    /// Number of checkpoint commits (steps) in the task.
    pub steps: usize,
    /// Number of distinct files changed across all steps.
    pub files_changed: usize,
    /// ISO 8601 timestamp of the most recent checkpoint commit.
    pub last_modified: String,
}

/// Response for GET /changes/tasks.
pub struct TasksResponse {
    /// The workspace-id these tasks belong to.
    pub workspace_id: String,
    /// List of tasks.
    pub tasks: Vec<ClineTaskSummary>,
}

/// A single checkpoint step (one commit in a task).
pub struct CheckpointStep {
    /// 40-char commit SHA.
    pub hash: String,
    /// Commit subject line (e.g. "checkpoint-<wsId>-<taskId>").
    pub subject: String,
    /// ISO 8601 timestamp of the commit.
    pub timestamp: String,
    /// Number of files changed in this step (vs parent commit).
    pub files_changed: usize,
    /// Step index (1-based, chronological order).
    pub index: usize,
}

/// Response for GET /changes/tasks/:taskId/steps.
pub struct StepsResponse {
    /// Task ID these steps belong to.
    pub task_id: String,
    /// Workspace ID.
    pub workspace_id: String,
    /// Ordered list of checkpoint steps (chronological, oldest first).
    pub steps: Vec<CheckpointStep>,
}

/// A file in a diff.
pub struct DiffFile {
    /// File path relative to repo root.
    pub path: String,
    /// Lines added.
    pub lines_added: usize,
    /// Lines removed.
    pub lines_removed: usize,
    /// File status: "added", "modified" or "deleted".
    pub status: String,
}

/// Full diff result for a step or task.
pub struct DiffResult {
    /// List of files changed.
    pub files: Vec<DiffFile>,
    /// Unified diff patch text.
    pub patch: String,
    /// The "from" commit reference.
    pub from_ref: String,
    /// The "to" commit reference.
    pub to_ref: String,
    /// The git commands that were run.
    pub git_commands: Vec<String>,
}

/// The content of a file at a git ref.
pub struct FileContent {
    /// The requested path.
    pub path: String,
    /// The content, when the file exists at the ref.
    pub content: Option<String>,
    /// Why the content could not be read.
    pub error: Option<String>,
    /// The content's size in bytes.
    pub size: Option<usize>,
}

/// A checkpoint commit: its hash, its subject line, the task it belongs to
/// and its author date.
pub struct CheckpointCommit {
    /// Commit hash.
    pub hash: String,
    /// Commit subject line (`checkpoint-<wsId>-<taskId>`).
    pub subject: String,
    /// Task id taken from the commit subject.
    pub task_id: String,
    /// ISO 8601 author date.
    pub timestamp: String,
}

/// The value of a checkpoint commit.
pub ghost struct CommitSpec {
    pub hash: Seq<char>,
    pub subject: Seq<char>,
    pub task_id: Seq<char>,
    pub timestamp: Seq<char>,
}

impl View for CheckpointCommit {
    type V = CommitSpec;

    open spec fn view(&self) -> CommitSpec {
        CommitSpec {
            hash: self.hash@,
            subject: self.subject@,
            task_id: self.task_id@,
            timestamp: self.timestamp@,
        }
    }
}

/// The values of a sequence of commits.
pub open spec fn commits_view(v: Seq<CheckpointCommit>) -> Seq<CommitSpec> {
    v.map_values(|c: CheckpointCommit| c@)
}

/// The value of a diff file entry.
pub ghost struct DiffFileSpec {
    pub path: Seq<char>,
    pub lines_added: nat,
    pub lines_removed: nat,
    pub status: Seq<char>,
}

impl View for DiffFile {
    type V = DiffFileSpec;

    open spec fn view(&self) -> DiffFileSpec {
        DiffFileSpec {
            path: self.path@,
            lines_added: self.lines_added as nat,
            lines_removed: self.lines_removed as nat,
            status: self.status@,
        }
    }
}

/// The values of a sequence of diff file entries.
pub open spec fn diff_files_view(v: Seq<DiffFile>) -> Seq<DiffFileSpec> {
    v.map_values(|f: DiffFile| f@)
}

// ---------------------------------------------------------------------------
// `git log --pretty=format:%H|%s|%aI`
// ---------------------------------------------------------------------------

/// The task id of a checkpoint commit subject `checkpoint-<wsId>-<taskId>`:
/// what follows the last `-` after the `checkpoint-` prefix, if not empty.
pub open spec fn subject_task_id(subject: Seq<char>) -> Option<Seq<char>> {
    if starts_with(subject, "checkpoint-"@) {
        let rest = subject.skip(11);
        match last_index(rest, '-') {
            Some(d) => {
                let task = rest.skip(d + 1);
                if task.len() > 0 {
                    Some(task)
                } else {
                    None
                }
            },
            None => None,
        }
    } else {
        None
    }
}

/// The checkpoint commit on one line `<hash>|<subject>|<date>` of the log
/// (the date is all that follows the second `|`).
pub open spec fn commit_of_line(line: Seq<char>) -> Option<CommitSpec> {
    match first_from(line, '|', 0) {
        None => None,
        Some(a) => match first_from(line, '|', a + 1) {
            None => None,
            Some(b) => match subject_task_id(line.subrange(a + 1, b)) {
                Some(task) => Some(
                    CommitSpec {
                        hash: line.take(a),
                        subject: line.subrange(a + 1, b),
                        task_id: task,
                        timestamp: line.skip(b + 1),
                    },
                ),
                None => None,
            },
        },
    }
}

/// The checkpoint commits on the given log lines, in order.
pub open spec fn commits_of_lines(ls: Seq<Seq<char>>) -> Seq<CommitSpec>
    decreases ls.len(),
{
    if ls.len() == 0 {
        Seq::<CommitSpec>::empty()
    } else {
        let rest = commits_of_lines(ls.drop_last());
        match commit_of_line(ls.last()) {
            Some(c) => rest.push(c),
            None => rest,
        }
    }
}

/// The checkpoint commits listed in `git log` output.
pub open spec fn commits_of_log(log: Seq<char>) -> Seq<CommitSpec> {
    commits_of_lines(lines_of(log))
}

/// The task id of a commit subject.
fn task_id_of_subject(subject: &[char]) -> (r: Option<Vec<char>>)
    ensures
        match r {
            Some(t) => subject_task_id(subject@) == Some(t@),
            None => subject_task_id(subject@) is None,
        },
{
    let prefix = chars_of("checkpoint-");
    proof {
        reveal_strlit("checkpoint-");
    }
    if !has_prefix(subject, &prefix) {
        return None;
    }
    let rest = sub_chars(subject, 11, subject.len());
    assert(rest@ =~= subject@.skip(11));
    match rfind_char(&rest, '-') {
        None => None,
        Some(d) => {
            let task = sub_chars(&rest, d + 1, rest.len());
            assert(task@ =~= rest@.skip(d + 1));
            if task.len() == 0 {
                None
            } else {
                Some(task)
            }
        },
    }
}

/// The checkpoint commit on one log line, if the line holds one.
fn commit_from_line(line: &[char]) -> (r: Option<CheckpointCommit>)
    ensures
        match r {
            Some(c) => commit_of_line(line@) == Some(c@),
            None => commit_of_line(line@) is None,
        },
{
    let a = match find_char_from(line, '|', 0) {
        None => return None,
        Some(a) => a,
    };
    assert(is_first_from(line@, '|', 0, a as int));
    assert(line@.len() == line.len());
    let b = match find_char_from(line, '|', a + 1) {
        None => return None,
        Some(b) => b,
    };
    assert(is_first_from(line@, '|', a + 1, b as int));
    let subject = sub_chars(line, a + 1, b);
    match task_id_of_subject(&subject) {
        None => None,
        Some(task) => {
            let hash = sub_chars(line, 0, a);
            let ts = sub_chars(line, b + 1, line.len());
            assert(hash@ =~= line@.take(a as int));
            assert(ts@ =~= line@.skip(b + 1));
            Some(
                CheckpointCommit {
                    hash: string_from_chars(&hash),
                    subject: string_from_chars(&subject),
                    task_id: string_from_chars(&task),
                    timestamp: string_from_chars(&ts),
                },
            )
        },
    }
}

/// Parse the output of `git log --all --pretty=format:%H|%s|%aI` into
/// checkpoint commits: lines whose subject is `checkpoint-<wsId>-<taskId>`
/// with a non-empty task id; other lines are skipped.
pub fn parse_checkpoint_log(log: &str) -> (r: Vec<CheckpointCommit>)
    ensures
        commits_view(r@) == commits_of_log(log@),
{
    let chars = chars_of(log);
    let lines = split_lines(&chars);
    let mut r: Vec<CheckpointCommit> = Vec::new();
    let mut i: usize = 0;
    while i < lines.len()
        invariant
            i <= lines@.len(),
            char_vecs_view(lines@) == lines_of(log@),
            commits_view(r@) == commits_of_lines(char_vecs_view(lines@).take(i as int)),
        decreases lines@.len() - i,
    {
        let ghost ls = char_vecs_view(lines@).take(i + 1);
        proof {
            assert(ls.drop_last() =~= char_vecs_view(lines@).take(i as int));
            assert(ls.last() == lines@[i as int]@);
        }
        match commit_from_line(&lines[i]) {
            Some(c) => {
                let ghost before = r@;
                let ghost cv = c@;
                r.push(c);
                assert(commits_view(r@) =~= commits_view(before).push(cv));
            },
            None => {},
        }
        i = i + 1;
    }
    assert(char_vecs_view(lines@).take(lines@.len() as int) =~= char_vecs_view(lines@));
    r
}

// ---------------------------------------------------------------------------
// `git diff --numstat`
// ---------------------------------------------------------------------------

/// A count field of numstat output: its value, or 0 when it does not parse
/// (binary files show `-`).
pub open spec fn count_field(f: Seq<char>) -> nat {
    match parse_usize_spec(f) {
        Some(v) => v,
        None => 0,
    }
}

/// The status of a diff entry with these counts.
pub open spec fn diff_status(added: nat, removed: nat, added_field: Seq<char>) -> Seq<char> {
    if added > 0 && removed == 0 && added_field != "-"@ {
        "added"@
    } else if removed > 0 && added == 0 {
        "deleted"@
    } else {
        "modified"@
    }
}

/// The diff entry on one numstat line `<added>\t<removed>\t<path>`; the
/// path is the third tab-separated field.
pub open spec fn diff_file_of_line(line: Seq<char>) -> Option<DiffFileSpec> {
    let parts = split_on(line, '\t');
    if line.len() == 0 || parts.len() < 3 {
        None
    } else {
        let added = count_field(parts[0]);
        let removed = count_field(parts[1]);
        Some(
            DiffFileSpec {
                path: parts[2],
                lines_added: added,
                lines_removed: removed,
                status: diff_status(added, removed, parts[0]),
            },
        )
    }
}

/// The diff entries on the given numstat lines, in order.
pub open spec fn diff_files_of_lines(ls: Seq<Seq<char>>) -> Seq<DiffFileSpec>
    decreases ls.len(),
{
    if ls.len() == 0 {
        Seq::<DiffFileSpec>::empty()
    } else {
        let rest = diff_files_of_lines(ls.drop_last());
        match diff_file_of_line(ls.last()) {
            Some(f) => rest.push(f),
            None => rest,
        }
    }
}

/// Whether an entry's status agrees with its counts: "deleted" only for an
/// entry that added no lines and removed some, "added" only for one that
/// removed none and added some, and "modified" for one that both added and
/// removed lines.
pub open spec fn status_agrees(f: DiffFileSpec) -> bool {
    &&& (f.status == "deleted"@ ==> f.lines_added == 0 && f.lines_removed > 0)
    &&& (f.status == "added"@ ==> f.lines_removed == 0 && f.lines_added > 0)
    &&& (f.lines_added > 0 && f.lines_removed > 0 ==> f.status == "modified"@)
}

proof fn lemma_status_agrees(path: Seq<char>, added: nat, removed: nat, field: Seq<char>)
    ensures
        status_agrees(
            DiffFileSpec {
                path,
                lines_added: added,
                lines_removed: removed,
                status: diff_status(added, removed, field),
            },
        ),
{
    reveal_strlit("deleted");
    reveal_strlit("added");
    reveal_strlit("modified");
    assert("deleted"@ != "modified"@ && "deleted"@ != "added"@ && "added"@ != "modified"@) by {
        assert("deleted"@[0] != "modified"@[0]);
        assert("deleted"@[0] != "added"@[0]);
        assert("added"@[0] != "modified"@[0]);
    }
}

proof fn lemma_line_status(line: Seq<char>)
    ensures
        diff_file_of_line(line) matches Some(f) ==> status_agrees(f),
{
    let parts = split_on(line, '\t');
    if !(line.len() == 0 || parts.len() < 3) {
        lemma_status_agrees(parts[2], count_field(parts[0]), count_field(parts[1]), parts[0]);
    }
}

/// Every numstat entry's status agrees with its counts: a file is reported
/// deleted only when it lost lines and gained none, and a file that both
/// gained and lost lines is modified.
pub proof fn law_numstat_status(ls: Seq<Seq<char>>)
    ensures
        forall|i: int|
            0 <= i < diff_files_of_lines(ls).len() ==> status_agrees(
                #[trigger] diff_files_of_lines(ls)[i],
            ),
    decreases ls.len(),
{
    if ls.len() > 0 {
        law_numstat_status(ls.drop_last());
        lemma_line_status(ls.last());
        let rest = diff_files_of_lines(ls.drop_last());
        match diff_file_of_line(ls.last()) {
            Some(f) => {
                assert forall|i: int|
                    0 <= i < rest.push(f).len() implies status_agrees(#[trigger] rest.push(f)[i]) by {
                    if i < rest.len() {
                        assert(rest.push(f)[i] == rest[i]);
                    }
                }
            },
            None => {},
        }
    }
}

/// The diff entries listed in `git diff --numstat` output.
pub open spec fn numstat_files(output: Seq<char>) -> Seq<DiffFileSpec> {
    diff_files_of_lines(lines_of(output))
}

/// A count field's value, 0 when it does not parse.
fn count_of(f: &[char]) -> (n: usize)
    ensures
        n as nat == count_field(f@),
{
    match parse_usize(f) {
        Some(v) => v,
        None => 0,
    }
}

/// The diff entry on one numstat line, if the line holds one.
fn diff_file_from_line(line: &[char]) -> (r: Option<DiffFile>)
    ensures
        match r {
            Some(f) => diff_file_of_line(line@) == Some(f@) && status_agrees(f@),
            None => diff_file_of_line(line@) is None,
        },
{
    if line.len() == 0 {
        return None;
    }
    let parts = split_chars(line, '\t');
    if parts.len() < 3 {
        return None;
    }
    proof {
        assert(char_vecs_view(parts@)[0] == parts@[0]@);
        assert(char_vecs_view(parts@)[1] == parts@[1]@);
        assert(char_vecs_view(parts@)[2] == parts@[2]@);
    }
    let added = count_of(&parts[0]);
    let removed = count_of(&parts[1]);
    proof {
        lemma_line_status(line@);
    }
    let dash = chars_of("-");
    let status = if added > 0 && removed == 0 && !chars_eq(&parts[0], &dash) {
        String::from_str("added")
    } else if removed > 0 && added == 0 {
        String::from_str("deleted")
    } else {
        String::from_str("modified")
    };
    Some(
        DiffFile {
            path: string_from_chars(&parts[2]),
            lines_added: added,
            lines_removed: removed,
            status,
        },
    )
}

/// Parse `git diff --numstat` output (`<added>\t<removed>\t<path>` per line)
/// into diff entries; empty lines and lines with fewer than three fields
/// are skipped; a count that does not parse (binary files) counts as 0.
pub fn parse_numstat(output: &str) -> (r: Vec<DiffFile>)
    ensures
        diff_files_view(r@) == numstat_files(output@),
        forall|i: int| 0 <= i < r@.len() ==> status_agrees(#[trigger] r@[i]@),
{
    let chars = chars_of(output);
    let lines = split_lines(&chars);
    let mut r: Vec<DiffFile> = Vec::new();
    let mut i: usize = 0;
    while i < lines.len()
        invariant
            i <= lines@.len(),
            char_vecs_view(lines@) == lines_of(output@),
            diff_files_view(r@) == diff_files_of_lines(char_vecs_view(lines@).take(i as int)),
        decreases lines@.len() - i,
    {
        let ghost ls = char_vecs_view(lines@).take(i + 1);
        proof {
            assert(ls.drop_last() =~= char_vecs_view(lines@).take(i as int));
            assert(ls.last() == lines@[i as int]@);
        }
        match diff_file_from_line(&lines[i]) {
            Some(f) => {
                let ghost before = r@;
                let ghost fv = f@;
                r.push(f);
                assert(diff_files_view(r@) =~= diff_files_view(before).push(fv));
            },
            None => {},
        }
        i = i + 1;
    }
    assert(char_vecs_view(lines@).take(lines@.len() as int) =~= char_vecs_view(lines@));
    proof {
        law_numstat_status(lines_of(output@));
        assert forall|i: int| 0 <= i < r@.len() implies status_agrees(#[trigger] r@[i]@) by {
            assert(diff_files_view(r@)[i] == r@[i]@);
        }
    }
    r
}

// ---------------------------------------------------------------------------
// Steps of a task
// ---------------------------------------------------------------------------

/// The commits of one task, in the order of the log.
pub open spec fn commits_for_task(cs: Seq<CommitSpec>, task: Seq<char>) -> Seq<CommitSpec>
    decreases cs.len(),
{
    if cs.len() == 0 {
        Seq::<CommitSpec>::empty()
    } else {
        let rest = commits_for_task(cs.drop_last(), task);
        if cs.last().task_id == task {
            rest.push(cs.last())
        } else {
            rest
        }
    }
}

/// The commits of one task in chronological order (`git log` lists the
/// newest first).
pub open spec fn task_commits_spec(cs: Seq<CommitSpec>, task: Seq<char>) -> Seq<CommitSpec> {
    commits_for_task(cs, task).reverse()
}

/// A copy of a commit.
pub fn clone_commit(c: &CheckpointCommit) -> (r: CheckpointCommit)
    ensures
        r@ == c@,
{
    CheckpointCommit {
        hash: c.hash.clone(),
        subject: c.subject.clone(),
        task_id: c.task_id.clone(),
        timestamp: c.timestamp.clone(),
    }
}

/// The commits of the task `task_id`, oldest first.
pub fn task_commits_chronological(commits: &[CheckpointCommit], task_id: &str) -> (r: Vec<
    CheckpointCommit,
>)
    ensures
        commits_view(r@) == task_commits_spec(commits_view(commits@), task_id@),
{
    let task = chars_of(task_id);
    let mut picked: Vec<CheckpointCommit> = Vec::new();
    let mut i: usize = 0;
    while i < commits.len()
        invariant
            i <= commits@.len(),
            task@ == task_id@,
            commits_view(picked@) == commits_for_task(
                commits_view(commits@).take(i as int),
                task_id@,
            ),
        decreases commits@.len() - i,
    {
        let ghost pre = commits_view(commits@).take(i + 1);
        proof {
            assert(pre.drop_last() =~= commits_view(commits@).take(i as int));
            assert(pre.last() == commits@[i as int]@);
        }
        let tid = chars_of(commits[i].task_id.as_str());
        if chars_eq(&tid, &task) {
            let c = clone_commit(&commits[i]);
            let ghost before = picked@;
            let ghost cv = c@;
            picked.push(c);
            assert(commits_view(picked@) =~= commits_view(before).push(cv));
        }
        i = i + 1;
    }
    assert(commits_view(commits@).take(commits@.len() as int) =~= commits_view(commits@));
    let ghost f = commits_view(picked@);
    let n = picked.len();
    let mut r: Vec<CheckpointCommit> = Vec::new();
    let mut k: usize = 0;
    while k < n
        invariant
            k <= n == picked@.len(),
            f == commits_view(picked@),
            r@.len() == k,
            forall|j: int| 0 <= j < k ==> #[trigger] r@[j]@ == f[n - 1 - j],
        decreases n - k,
    {
        r.push(clone_commit(&picked[n - 1 - k]));
        k = k + 1;
    }
    assert(commits_view(r@) =~= f.reverse());
    r
}

/// The checkpoint steps of a task from its commits (oldest first) and the
/// number of files each commit changed: step `i` (0-based) is the `i`-th
/// commit, with its own subject line, numbered `i + 1`. The task and
/// workspace ids name what is listed; the commits are already the task's.
pub fn list_steps_for_task(
    task_id: &str,
    workspace_id: &str,
    task_commits: &[CheckpointCommit],
    files_changed: &[usize],
) -> (r: Vec<CheckpointStep>)
    requires
        files_changed@.len() == task_commits@.len(),
    ensures
        r@.len() == task_commits@.len(),
        forall|i: int|
            0 <= i < r@.len() ==> {
                &&& (#[trigger] r@[i]).hash@ == task_commits@[i].hash@
                &&& r@[i].subject@ == task_commits@[i].subject@
                &&& r@[i].timestamp@ == task_commits@[i].timestamp@
                &&& r@[i].files_changed == files_changed@[i]
                &&& r@[i].index == i + 1
            },
{
    let mut r: Vec<CheckpointStep> = Vec::new();
    let mut i: usize = 0;
    while i < task_commits.len()
        invariant
            i <= task_commits@.len() == files_changed@.len(),
            r@.len() == i,
            forall|j: int|
                0 <= j < i ==> {
                    &&& (#[trigger] r@[j]).hash@ == task_commits@[j].hash@
                    &&& r@[j].subject@ == task_commits@[j].subject@
                    &&& r@[j].timestamp@ == task_commits@[j].timestamp@
                    &&& r@[j].files_changed == files_changed@[j]
                    &&& r@[j].index == j + 1
                },
        decreases task_commits@.len() - i,
    {
        r.push(
            CheckpointStep {
                hash: task_commits[i].hash.clone(),
                subject: task_commits[i].subject.clone(),
                timestamp: task_commits[i].timestamp.clone(),
                files_changed: files_changed[i],
                index: i + 1,
            },
        );
        i = i + 1;
    }
    r
}

/// The message for a step index outside a task's steps.
pub open spec fn step_range_message(step_index: nat, total: nat) -> Seq<char> {
    "Step index "@ + decimal(step_index) + " out of range (task has "@ + decimal(total)
        + " steps)"@
}

/// The refs of a single step's diff (`step_index` is 1-based): from the
/// parent of the step's commit to that commit.
pub fn step_diff_refs(task_commits: &[CheckpointCommit], step_index: usize) -> (r: Result<
    (String, String),
    String,
>)
    ensures
        (step_index == 0 || step_index > task_commits@.len()) ==> (r matches Err(m) && m@
            == step_range_message(step_index as nat, task_commits@.len())),
        (1 <= step_index <= task_commits@.len()) ==> (r matches Ok((from, to)) && {
            &&& to@ == task_commits@[step_index - 1].hash@
            &&& from@ == task_commits@[step_index - 1].hash@ + "^"@
        }),
{
    let n = task_commits.len();
    if step_index == 0 || step_index > n {
        let m = String::from_str("Step index ").concat(decimal_string(step_index as u64).as_str())
            .concat(" out of range (task has ").concat(decimal_string(n as u64).as_str()).concat(
            " steps)",
        );
        return Err(m);
    }
    let to = task_commits[step_index - 1].hash.clone();
    let from = to.clone().concat("^");
    Ok((from, to))
}

/// The message for a task without checkpoint commits.
pub open spec fn no_commits_message(task_id: Seq<char>) -> Seq<char> {
    "No checkpoint commits found for task '"@ + task_id + "'"@
}

/// The refs of a whole task's diff: from the parent of its first checkpoint
/// to its last checkpoint.
pub fn task_diff_refs(task_commits: &[CheckpointCommit], task_id: &str) -> (r: Result<
    (String, String),
    String,
>)
    ensures
        task_commits@.len() == 0 ==> (r matches Err(m) && m@ == no_commits_message(task_id@)),
        task_commits@.len() > 0 ==> (r matches Ok((from, to)) && {
            &&& from@ == task_commits@[0].hash@ + "^"@
            &&& to@ == task_commits@.last().hash@
        }),
{
    if task_commits.len() == 0 {
        return Err(
            String::from_str("No checkpoint commits found for task '").concat(task_id).concat("'"),
        );
    }
    let from = task_commits[0].hash.clone().concat("^");
    let to = task_commits[task_commits.len() - 1].hash.clone();
    Ok((from, to))
}

/// The refs of a subtask's diff, given the first and last of its steps:
/// from the step before its first one (or the parent of the first step) to
/// its last step.
pub fn subtask_diff_refs(steps: &[CheckpointStep], first: usize, last: usize) -> (r: (
    String,
    String,
))
    requires
        first <= last < steps@.len(),
    ensures
        r.1@ == steps@[last as int].hash@,
        r.0@ == (if first > 0 {
            steps@[first - 1].hash@
        } else {
            steps@[first as int].hash@ + "^"@
        }),
{
    let to = steps[last].hash.clone();
    let from = if first > 0 {
        steps[first - 1].hash.clone()
    } else {
        steps[first].hash.clone().concat("^")
    };
    (from, to)
}

// ---------------------------------------------------------------------------
// git arguments
// ---------------------------------------------------------------------------

/// The pathspec arguments that exclude the given patterns from a diff:
/// none without patterns, else `--`, `:/` and `:(exclude)<pattern>` for each.
pub open spec fn exclude_pathspecs(excludes: Seq<Seq<char>>) -> Seq<Seq<char>> {
    if excludes.len() == 0 {
        Seq::<Seq<char>>::empty()
    } else {
        seq!["--"@, ":/"@] + excludes.map_values(|e: Seq<char>| ":(exclude)"@ + e)
    }
}

/// The arguments of `git diff [--numstat] <from> <to>` on a checkpoint repo,
/// restricted by the exclude patterns.
pub open spec fn diff_args_spec(
    git_dir: Seq<char>,
    numstat: bool,
    from: Seq<char>,
    to: Seq<char>,
    excludes: Seq<Seq<char>>,
) -> Seq<Seq<char>> {
    let head = if numstat {
        seq!["--git-dir"@, git_dir, "diff"@, "--numstat"@, from, to]
    } else {
        seq!["--git-dir"@, git_dir, "diff"@, from, to]
    };
    head + exclude_pathspecs(excludes)
}

/// `:(exclude)<pattern>` for each pattern.
fn exclusions(excludes: &[String]) -> (r: Vec<String>)
    ensures
        strings_view(r@) == strings_view(excludes@).map_values(|e: Seq<char>| ":(exclude)"@ + e),
{
    let mut r: Vec<String> = Vec::new();
    let mut i: usize = 0;
    while i < excludes.len()
        invariant
            i <= excludes@.len(),
            r@.len() == i,
            forall|j: int| 0 <= j < i ==> (#[trigger] r@[j])@ == ":(exclude)"@ + excludes@[j]@,
        decreases excludes@.len() - i,
    {
        r.push(String::from_str(":(exclude)").concat(excludes[i].as_str()));
        i = i + 1;
    }
    assert(strings_view(r@) =~= strings_view(excludes@).map_values(
        |e: Seq<char>| ":(exclude)"@ + e,
    ));
    r
}

/// The arguments of a `git diff` (with `--numstat` when asked) between two
/// refs of the repo at `git_dir`, excluding the given patterns.
pub fn git_diff_args(
    git_dir: &str,
    numstat: bool,
    from: &str,
    to: &str,
    excludes: &[String],
) -> (r: Vec<String>)
    ensures
        strings_view(r@) == diff_args_spec(git_dir@, numstat, from@, to@, strings_view(excludes@)),
{
    let mut r: Vec<String> = Vec::new();
    r.push(String::from_str("--git-dir"));
    r.push(String::from_str(git_dir));
    r.push(String::from_str("diff"));
    if numstat {
        r.push(String::from_str("--numstat"));
    }
    r.push(String::from_str(from));
    r.push(String::from_str(to));
    let ghost head = strings_view(r@);
    if excludes.len() > 0 {
        r.push(String::from_str("--"));
        r.push(String::from_str(":/"));
        let ex = exclusions(excludes);
        let mut i: usize = 0;
        let ghost base = r@;
        while i < ex.len()
            invariant
                i <= ex@.len(),
                r@ == base + ex@.take(i as int),
            decreases ex@.len() - i,
        {
            r.push(ex[i].clone());
            i = i + 1;
            assert(r@ =~= base + ex@.take(i as int));
        }
        assert(ex@.take(ex@.len() as int) =~= ex@);
        assert(strings_view(r@) =~= head + exclude_pathspecs(strings_view(excludes@)));
    } else {
        assert(strings_view(r@) =~= head + exclude_pathspecs(strings_view(excludes@)));
    }
    r
}

/// The command line of a git invocation, as reported in diff results:
/// `git` followed by the arguments, separated by spaces.
pub fn git_command_line(args: &[String]) -> (r: String)
    ensures
        r@ == "git "@ + crate::text::join(strings_view(args@), " "@),
{
    let mut r = String::from_str("git ");
    let mut i: usize = 0;
    while i < args.len()
        invariant
            i <= args@.len(),
            r@ == "git "@ + crate::text::join(strings_view(args@).take(i as int), " "@),
        decreases args@.len() - i,
    {
        let ghost t = strings_view(args@).take(i + 1);
        proof {
            assert(t.drop_last() =~= strings_view(args@).take(i as int));
            assert(t.last() == args@[i as int]@);
        }
        if i > 0 {
            r = r.concat(" ");
        }
        r = r.concat(args[i].as_str());
        proof {
            if i == 0 {
                assert(t.len() == 1);
                assert(crate::text::join(t, " "@) == t[0]);
                assert(crate::text::join(strings_view(args@).take(0), " "@) =~= Seq::<char>::empty());
            }
        }
        i = i + 1;
        assert(r@ =~= "git "@ + crate::text::join(strings_view(args@).take(i as int), " "@));
    }
    assert(strings_view(args@).take(args@.len() as int) =~= strings_view(args@));
    r
}

// ---------------------------------------------------------------------------
// Workspaces
// ---------------------------------------------------------------------------

/// Some commit belongs to the task.
pub open spec fn has_task(cs: Seq<CommitSpec>, task: Seq<char>) -> bool {
    exists|k: int| 0 <= k < cs.len() && cs[k].task_id == task
}

/// Whether some commit belongs to the task.
fn commits_have_task(commits: &[CheckpointCommit], task: &[char]) -> (b: bool)
    ensures
        b == has_task(commits_view(commits@), task@),
{
    let mut i: usize = 0;
    while i < commits.len()
        invariant
            i <= commits@.len(),
            forall|k: int| 0 <= k < i ==> commits@[k].task_id@ != task@,
        decreases commits@.len() - i,
    {
        let tid = chars_of(commits[i].task_id.as_str());
        if chars_eq(&tid, task) {
            assert(commits_view(commits@)[i as int].task_id == task@);
            return true;
        }
        i = i + 1;
    }
    proof {
        if has_task(commits_view(commits@), task@) {
            let k = choose|k: int|
                0 <= k < commits_view(commits@).len() && commits_view(commits@)[k].task_id
                    == task@;
            assert(commits@[k].task_id@ == task@);
        }
    }
    false
}

/// The workspace holding a task: the first workspace (in the order given)
/// among whose checkpoint commits the task occurs; `commits[i]` are the
/// commits of `workspaces[i]`. Yields the workspace id and its git dir.
pub fn find_workspace_for_task(
    task_id: &str,
    workspaces: &[WorkspaceInfo],
    commits: &[Vec<CheckpointCommit>],
) -> (r: Option<(String, String)>)
    requires
        commits@.len() == workspaces@.len(),
    ensures
        match r {
            Some((id, git_dir)) => exists|i: int|
                0 <= i < workspaces@.len() && has_task(commits_view(commits@[i]@), task_id@)
                    && (forall|j: int|
                    0 <= j < i ==> !has_task(commits_view(#[trigger] commits@[j]@), task_id@))
                    && id@ == workspaces@[i].id@ && git_dir@ == workspaces@[i].git_dir@,
            None => forall|i: int|
                0 <= i < workspaces@.len() ==> !has_task(
                    commits_view(#[trigger] commits@[i]@),
                    task_id@,
                ),
        },
{
    let task = chars_of(task_id);
    let mut i: usize = 0;
    while i < workspaces.len()
        invariant
            i <= workspaces@.len() == commits@.len(),
            task@ == task_id@,
            forall|j: int|
                0 <= j < i ==> !has_task(commits_view(#[trigger] commits@[j]@), task_id@),
        decreases workspaces@.len() - i,
    {
        if commits_have_task(&commits[i], &task) {
            return Some((workspaces[i].id.clone(), workspaces[i].git_dir.clone()));
        }
        i = i + 1;
    }
    None
}

/// The task ids of the commits.
pub open spec fn task_ids(cs: Seq<CommitSpec>) -> Seq<Seq<char>> {
    cs.map_values(|c: CommitSpec| c.task_id)
}

/// The first non-empty timestamp among the commits (`git log` lists the
/// newest first), empty when there is none.
pub open spec fn latest_timestamp(cs: Seq<CommitSpec>) -> Seq<char>
    decreases cs.len(),
{
    if cs.len() == 0 {
        Seq::<char>::empty()
    } else {
        let l = latest_timestamp(cs.drop_last());
        if l.len() == 0 {
            cs.last().timestamp
        } else {
            l
        }
    }
}

/// The number of distinct task ids among a workspace's checkpoint commits,
/// and the timestamp of its most recent commit.
pub fn count_tasks_and_latest(commits: &[CheckpointCommit]) -> (r: (usize, String))
    ensures
        r.0 as nat == task_ids(commits_view(commits@)).to_set().len(),
        r.1@ == latest_timestamp(commits_view(commits@)),
{
    let mut seen: Vec<Vec<char>> = Vec::new();
    let mut latest = String::new();
    let mut i: usize = 0;
    while i < commits.len()
        invariant
            i <= commits@.len(),
            char_vecs_view(seen@).no_duplicates(),
            char_vecs_view(seen@).to_set() == task_ids(commits_view(commits@).take(i as int)).to_set(),
            latest@ == latest_timestamp(commits_view(commits@).take(i as int)),
        decreases commits@.len() - i,
    {
        let ghost pre = commits_view(commits@).take(i + 1);
        proof {
            assert(pre.drop_last() =~= commits_view(commits@).take(i as int));
            assert(pre.last() == commits@[i as int]@);
            assert(task_ids(pre) =~= task_ids(pre.drop_last()).push(commits@[i as int].task_id@));
            task_ids(pre.drop_last()).lemma_push_to_set_commute(commits@[i as int].task_id@);
        }
        let tid = chars_of(commits[i].task_id.as_str());
        let mut found = false;
        let mut k: usize = 0;
        while k < seen.len()
            invariant
                k <= seen@.len(),
                !found ==> forall|j: int| 0 <= j < k ==> seen@[j]@ != tid@,
                found ==> char_vecs_view(seen@).contains(tid@),
            decreases seen@.len() - k,
        {
            if chars_eq(&seen[k], &tid) {
                found = true;
                assert(char_vecs_view(seen@)[k as int] == tid@);
            }
            k = k + 1;
        }
        if !found {
            let ghost before = char_vecs_view(seen@);
            proof {
                assert(!before.contains(tid@)) by {
                    if before.contains(tid@) {
                        let j = choose|j: int| 0 <= j < before.len() && before[j] == tid@;
                        assert(seen@[j]@ == tid@);
                    }
                }
            }
            seen.push(tid);
            proof {
                assert(char_vecs_view(seen@) =~= before.push(tid@));
                before.lemma_push_to_set_commute(tid@);
                assert forall|a: int, b: int|
                    0 <= a < b < char_vecs_view(seen@).len() implies char_vecs_view(seen@)[a]
                    != char_vecs_view(seen@)[b] by {
                    if b == before.len() {
                        assert(before[a] == char_vecs_view(seen@)[a]);
                    } else {
                        assert(before[a] != before[b]);
                    }
                }
            }
        } else {
            proof {
                let v = char_vecs_view(seen@);
                assert(v.to_set().insert(tid@) =~= v.to_set());
            }
        }
        if latest.as_str().is_empty() {
            latest = commits[i].timestamp.clone();
        }
        proof {
            if latest@.len() == 0 {
            }
        }
        i = i + 1;
    }
    assert(commits_view(commits@).take(commits@.len() as int) =~= commits_view(commits@));
    proof {
        char_vecs_view(seen@).unique_seq_to_set();
    }
    (seen.len(), latest)
}

/// Cache key for steps: `<workspace_id>:<task_id>`.
pub fn steps_cache_key(workspace_id: &str, task_id: &str) -> (r: String)
    ensures
        r@ == workspace_id@ + ":"@ + task_id@,
{
    String::from_str(workspace_id).concat(":").concat(task_id)
}

/// Tasks cache file name for a workspace: `tasks_<workspace_id>.json`.
pub fn tasks_file(workspace_id: &str) -> (r: String)
    ensures
        r@ == "tasks_"@ + workspace_id@ + ".json"@,
{
    String::from_str("tasks_").concat(workspace_id).concat(".json")
}

/// Steps cache file name: `steps_<workspace_id>_<task_id>.json`.
pub fn steps_file(workspace_id: &str, task_id: &str) -> (r: String)
    ensures
        r@ == "steps_"@ + workspace_id@ + "_"@ + task_id@ + ".json"@,
{
    String::from_str("steps_").concat(workspace_id).concat("_").concat(task_id).concat(".json")
}

// ---------------------------------------------------------------------------
// Subtasks to steps
// ---------------------------------------------------------------------------

/// The epoch milliseconds of an RFC 3339 timestamp, as chrono's
/// `DateTime::parse_from_rfc3339(..).timestamp_millis()` computes them;
/// none when it does not parse.
pub uninterp spec fn rfc3339_millis(ts: Seq<char>) -> Option<i64>;

/// The epoch milliseconds of a `%Y-%m-%dT%H:%M:%S%:z` timestamp, as
/// chrono's `DateTime::parse_from_str(..).timestamp_millis()` computes
/// them; none when it does not parse.
pub uninterp spec fn offset_datetime_millis(ts: Seq<char>) -> Option<i64>;

/// `chrono::DateTime::parse_from_rfc3339`, in epoch milliseconds. The
/// contract names the result (a function of the text alone) and states
/// nothing more of it.
#[verifier::external_body]
fn parse_rfc3339_millis(ts: &str) -> (r: Option<i64>)
    ensures
        r == rfc3339_millis(ts@),
{
    chrono::DateTime::parse_from_rfc3339(ts).ok().map(|dt| dt.timestamp_millis())
}

/// `chrono::DateTime::parse_from_str` with the format
/// `%Y-%m-%dT%H:%M:%S%:z`, in epoch milliseconds. The contract names the
/// result (a function of the text alone) and states nothing more of it.
#[verifier::external_body]
fn parse_offset_datetime_millis(ts: &str) -> (r: Option<i64>)
    ensures
        r == offset_datetime_millis(ts@),
{
    chrono::DateTime::parse_from_str(ts, "%Y-%m-%dT%H:%M:%S%:z").ok().map(
        |dt| dt.timestamp_millis(),
    )
}

/// The instant of a timestamp in epoch milliseconds for comparison: as RFC
/// 3339, else without fractional seconds, else 0.
pub open spec fn timestamp_ms(ts: Seq<char>) -> i64 {
    match rfc3339_millis(ts) {
        Some(m) => m,
        None => match offset_datetime_millis(ts) {
            Some(m) => m,
            None => 0,
        },
    }
}

/// Parse an ISO 8601 / RFC 3339 timestamp into epoch milliseconds; 0 when
/// it cannot be parsed.
pub fn parse_timestamp_ms(ts: &str) -> (r: i64)
    ensures
        r == timestamp_ms(ts@),
{
    match parse_rfc3339_millis(ts) {
        Some(m) => m,
        None => match parse_offset_datetime_millis(ts) {
            Some(m) => m,
            None => 0,
        },
    }
}

/// Instant `t` lies in the time window of subtask `si`: at or after its
/// start, and before the next subtask's start if there is one.
pub open spec fn in_window(sub: Seq<i64>, si: int, t: i64) -> bool {
    t >= sub[si] && (si + 1 >= sub.len() || t < sub[si + 1])
}

/// Step `i` is the first step in the window of subtask `si`.
pub open spec fn is_first_in(sub: Seq<i64>, steps: Seq<i64>, si: int, i: int) -> bool {
    &&& 0 <= i < steps.len()
    &&& in_window(sub, si, steps[i])
    &&& forall|k: int| 0 <= k < i ==> !in_window(sub, si, #[trigger] steps[k])
}

/// Step `i` is the last step in the window of subtask `si`.
pub open spec fn is_last_in(sub: Seq<i64>, steps: Seq<i64>, si: int, i: int) -> bool {
    &&& 0 <= i < steps.len()
    &&& in_window(sub, si, steps[i])
    &&& forall|k: int| i < k < steps.len() ==> !in_window(sub, si, #[trigger] steps[k])
}

/// The steps of subtask `si`: its first and last step, when it has any.
pub open spec fn subtask_step_range(sub: Seq<i64>, steps: Seq<i64>, si: int) -> Option<(int, int)> {
    if exists|i: int| is_first_in(sub, steps, si, i) {
        Some(
            (
                choose|i: int| is_first_in(sub, steps, si, i),
                choose|i: int| is_last_in(sub, steps, si, i),
            ),
        )
    } else {
        None
    }
}

/// The step ranges of the first `n` subtasks that have steps:
/// `(subtask, first step, last step)`.
pub open spec fn subtask_ranges_upto(sub: Seq<i64>, steps: Seq<i64>, n: int) -> Seq<
    (usize, usize, usize),
>
    decreases n,
{
    if n <= 0 {
        Seq::<(usize, usize, usize)>::empty()
    } else {
        let rest = subtask_ranges_upto(sub, steps, n - 1);
        match subtask_step_range(sub, steps, n - 1) {
            Some((f, l)) => rest.push(((n - 1) as usize, f as usize, l as usize)),
            None => rest,
        }
    }
}

/// The step ranges of all subtasks that have steps.
pub open spec fn subtask_ranges(sub: Seq<i64>, steps: Seq<i64>) -> Seq<(usize, usize, usize)> {
    subtask_ranges_upto(sub, steps, sub.len() as int)
}

proof fn lemma_first_unique(sub: Seq<i64>, steps: Seq<i64>, si: int, i: int)
    requires
        is_first_in(sub, steps, si, i),
    ensures
        (choose|j: int| is_first_in(sub, steps, si, j)) == i,
{
    let j = choose|j: int| is_first_in(sub, steps, si, j);
    assert(is_first_in(sub, steps, si, j));
    if j < i {
        assert(!in_window(sub, si, steps[j]));
    } else if i < j {
        assert(!in_window(sub, si, steps[i]));
    }
}

proof fn lemma_last_unique(sub: Seq<i64>, steps: Seq<i64>, si: int, i: int)
    requires
        is_last_in(sub, steps, si, i),
    ensures
        (choose|j: int| is_last_in(sub, steps, si, j)) == i,
{
    let j = choose|j: int| is_last_in(sub, steps, si, j);
    assert(is_last_in(sub, steps, si, j));
    if j < i {
        assert(!in_window(sub, si, steps[i]));
    } else if i < j {
        assert(!in_window(sub, si, steps[j]));
    }
}

/// Map subtask time windows to checkpoint step ranges, given the subtask
/// start instants and the step instants (both in epoch milliseconds, steps
/// oldest first): for every subtask with steps in its window,
/// `(subtask index, first step index, last step index)`.
pub fn map_subtask_ranges(subtask_ms: &[i64], step_ms: &[i64]) -> (r: Vec<(usize, usize, usize)>)
    ensures
        r@ == subtask_ranges(subtask_ms@, step_ms@),
{
    let ghost sub = subtask_ms@;
    let ghost steps = step_ms@;
    let mut r: Vec<(usize, usize, usize)> = Vec::new();
    let mut si: usize = 0;
    while si < subtask_ms.len()
        invariant
            si <= sub.len(),
            sub == subtask_ms@,
            steps == step_ms@,
            r@ == subtask_ranges_upto(sub, steps, si as int),
        decreases sub.len() - si,
    {
        let start = subtask_ms[si];
        let has_end = si + 1 < subtask_ms.len();
        let end = if has_end {
            subtask_ms[si + 1]
        } else {
            0
        };
        let mut first: Option<usize> = None;
        let mut last: usize = 0;
        let mut i: usize = 0;
        while i < step_ms.len()
            invariant
                i <= steps.len(),
                sub == subtask_ms@,
                steps == step_ms@,
                si < sub.len(),
                start == sub[si as int],
                has_end == (si + 1 < sub.len()),
                has_end ==> end == sub[si + 1],
                first is None ==> forall|k: int|
                    0 <= k < i ==> !in_window(sub, si as int, #[trigger] steps[k]),
                first matches Some(f) ==> is_first_in(sub, steps, si as int, f as int) && f < i,
                first is Some ==> {
                    &&& last < i
                    &&& in_window(sub, si as int, steps[last as int])
                    &&& forall|k: int| last < k < i ==> !in_window(sub, si as int, #[trigger] steps[k])
                },
            decreases steps.len() - i,
        {
            let t = step_ms[i];
            let in_range = t >= start && (!has_end || t < end);
            assert(in_range == in_window(sub, si as int, steps[i as int]));
            if in_range {
                if first.is_none() {
                    first = Some(i);
                }
                last = i;
            }
            i = i + 1;
        }
        let ghost pre = subtask_ranges_upto(sub, steps, si as int);
        match first {
            Some(f) => {
                proof {
                    assert(is_last_in(sub, steps, si as int, last as int));
                    lemma_first_unique(sub, steps, si as int, f as int);
                    lemma_last_unique(sub, steps, si as int, last as int);
                }
                r.push((si, f, last));
            },
            None => {
                assert(!exists|j: int| is_first_in(sub, steps, si as int, j));
            },
        }
        si = si + 1;
    }
    r
}

/// The instants of the subtasks' timestamps.
pub open spec fn subtask_instants(subtasks: SubtasksResponse) -> Seq<i64> {
    subtasks.subtasks@.map_values(|e: crate::subtasks::SubtaskEntry| timestamp_ms(e.timestamp@))
}

/// The instants of the steps' timestamps.
pub open spec fn step_instants(steps: Seq<CheckpointStep>) -> Seq<i64> {
    steps.map_values(|s: CheckpointStep| timestamp_ms(s.timestamp@))
}

/// Map subtask time boundaries (from the conversation history) to
/// checkpoint step ranges (steps oldest first), comparing parsed instants:
/// `(subtask index, first step index, last step index)` for every subtask
/// with steps in its window.
pub fn map_subtasks_to_steps(subtasks: &SubtasksResponse, steps: &[CheckpointStep]) -> (r: Vec<
    (usize, usize, usize),
>)
    ensures
        r@ == subtask_ranges(subtask_instants(*subtasks), step_instants(steps@)),
{
    let mut step_ms: Vec<i64> = Vec::new();
    let mut i: usize = 0;
    while i < steps.len()
        invariant
            i <= steps@.len(),
            step_ms@ == step_instants(steps@).take(i as int),
        decreases steps@.len() - i,
    {
        step_ms.push(parse_timestamp_ms(steps[i].timestamp.as_str()));
        i = i + 1;
        assert(step_ms@ =~= step_instants(steps@).take(i as int));
    }
    assert(step_instants(steps@).take(steps@.len() as int) =~= step_instants(steps@));
    let mut sub_ms: Vec<i64> = Vec::new();
    let mut j: usize = 0;
    while j < subtasks.subtasks.len()
        invariant
            j <= subtasks.subtasks@.len(),
            sub_ms@ == subtask_instants(*subtasks).take(j as int),
        decreases subtasks.subtasks@.len() - j,
    {
        sub_ms.push(parse_timestamp_ms(subtasks.subtasks[j].timestamp.as_str()));
        j = j + 1;
        assert(sub_ms@ =~= subtask_instants(*subtasks).take(j as int));
    }
    assert(subtask_instants(*subtasks).take(subtasks.subtasks@.len() as int) =~= subtask_instants(
        *subtasks,
    ));
    map_subtask_ranges(&sub_ms, &step_ms)
}

} // verus!
