//! The changes endpoints over the shadow-git checkpoints: their queries and
//! errors, the in-memory caches of workspaces, tasks and steps, and the
//! checks around nuking a workspace and reading file contents.
//!
//! Discovery, git and the disk cache are run by the caller; the functions
//! below hold what is decided around them.

use vstd::prelude::*;
use crate::keyed::{find_key, key_is, key_starts, lookup_keyed, put_keyed, remove_keys};
use crate::shadow_git::{
    steps_cache_key, FileContent, StepsResponse, TasksResponse, WorkspaceInfo, WorkspacesResponse,
};
use crate::text::{
    chars_of, decimal, decimal_string, insert_sorted_unique, lines_of, same_text, split_lines,
    starts_with,
};

verus! {

/// Error response of the changes endpoints.
#[derive(Debug)]
pub struct ChangesErrorResponse {
    pub error: String,
    pub code: u16,
}

/// Query parameters of /changes/workspaces.
pub struct WorkspacesQuery {
    /// Force re-discovery (bypass the cache).
    pub refresh: Option<bool>,
}

/// Query parameters of /changes/tasks.
pub struct TasksQuery {
    /// Workspace ID to list tasks for (required).
    pub workspace: String,
    /// Force re-enumeration (bypass the cache).
    pub refresh: Option<bool>,
}

/// Query parameters of /changes/tasks/:taskId/steps.
pub struct StepsQuery {
    /// Workspace ID (required to locate the git repo).
    pub workspace: String,
    /// Force re-enumeration (bypass the cache).
    pub refresh: Option<bool>,
}

/// Query parameters of /changes/tasks/:taskId/steps/:index/diff.
pub struct StepDiffQuery {
    /// Workspace ID (required to locate the git repo).
    pub workspace: String,
}

/// Query parameters of /changes/tasks/:taskId/diff.
pub struct TaskDiffQuery {
    /// Workspace ID (required to locate the git repo).
    pub workspace: String,
    /// Pathspec exclusion patterns.
    pub exclude: Vec<String>,
}

/// Query parameters of /changes/tasks/:taskId/subtasks/:subtaskIndex/diff.
pub struct SubtaskDiffQuery {
    /// Workspace ID (required to locate the git repo).
    pub workspace: String,
    /// Pathspec exclusion patterns.
    pub exclude: Vec<String>,
}

/// Path parameters of the subtask diff endpoint.
pub struct SubtaskDiffPath {
    pub task_id: String,
    pub subtask_index: usize,
}

/// Path parameters of the step diff endpoint.
pub struct StepDiffPath {
    pub task_id: String,
    pub index: usize,
}

/// Result of a nuke operation.
pub struct NukeWorkspaceResponse {
    /// Workspace ID that was nuked.
    pub workspace_id: String,
    /// Number of commits that were deleted.
    pub deleted_commits: usize,
    /// Number of tasks that were deleted.
    pub deleted_tasks: usize,
    /// The git command used to re-initialize the repo.
    pub git_command: String,
    /// Whether the operation was successful.
    pub success: bool,
}

/// Request body of /changes/file-contents.
pub struct FileContentsRequest {
    pub workspace: String,
    pub git_ref: String,
    pub paths: Vec<String>,
}

/// Response of /changes/file-contents.
pub struct FileContentsResponse {
    pub files: Vec<FileContent>,
    pub retrieved: usize,
    pub failed: usize,
    pub total_size: usize,
}

/// Whether a query asks to bypass the caches.
pub open spec fn wants_refresh(refresh: Option<bool>) -> bool {
    match refresh {
        Some(b) => b,
        None => false,
    }
}

/// The 400 answer when a required workspace is missing; `field` names the
/// query parameter or body field.
pub fn require_workspace(workspace: &str, in_body: bool) -> (r: Result<(), ChangesErrorResponse>)
    ensures
        workspace@.len() != 0 ==> r is Ok,
        workspace@.len() == 0 ==> (r matches Err(e) && e.code == 400 && e.error@ == (if in_body {
            "Missing required 'workspace' field"@
        } else {
            "Missing required 'workspace' query parameter"@
        })),
{
    if chars_of(workspace).len() == 0 {
        let error = if in_body {
            String::from_str("Missing required 'workspace' field")
        } else {
            String::from_str("Missing required 'workspace' query parameter")
        };
        Err(ChangesErrorResponse { error, code: 400 })
    } else {
        Ok(())
    }
}

/// The 400 answer for a workspace that discovery does not know.
pub fn workspace_not_found(workspace: &str) -> (r: ChangesErrorResponse)
    ensures
        r.code == 400,
        r.error@ == "Workspace '"@ + workspace@ + "' not found in checkpoint repositories"@,
{
    ChangesErrorResponse {
        error: String::from_str("Workspace '").concat(workspace).concat(
            "' not found in checkpoint repositories",
        ),
        code: 400,
    }
}

/// The answer for a failed background job: `what` is the job, `e` its
/// failure.
pub fn job_failed(what: &str, e: &str) -> (r: ChangesErrorResponse)
    ensures
        r.code == 500,
        r.error@ == "Failed to "@ + what@ + ": "@ + e@,
{
    ChangesErrorResponse {
        error: String::from_str("Failed to ").concat(what).concat(": ").concat(e),
        code: 500,
    }
}

/// The answer of a diff endpoint: the diff, or its error as a 400.
pub fn diff_answer<T>(result: Result<T, String>) -> (r: Result<T, ChangesErrorResponse>)
    ensures
        match result {
            Ok(d) => r == Ok::<T, ChangesErrorResponse>(d),
            Err(e) => r matches Err(x) && x.error == e && x.code == 400,
        },
{
    match result {
        Ok(d) => Ok(d),
        Err(e) => Err(ChangesErrorResponse { error: e, code: 400 }),
    }
}

/// The git directory of workspace `id` in a list of workspaces (first
/// match).
pub open spec fn git_dir_in(ws: Seq<WorkspaceInfo>, id: Seq<char>) -> Option<Seq<char>>
    decreases ws.len(),
{
    if ws.len() == 0 {
        None
    } else if ws[0].id@ == id {
        Some(ws[0].git_dir@)
    } else {
        git_dir_in(ws.drop_first(), id)
    }
}

/// The git directory of workspace `id` among the discovered workspaces.
pub fn find_git_dir(workspaces: &[WorkspaceInfo], id: &str) -> (r: Option<String>)
    ensures
        match r {
            Some(d) => git_dir_in(workspaces@, id@) == Some(d@),
            None => git_dir_in(workspaces@, id@) is None,
        },
{
    let mut i: usize = 0;
    assert(workspaces@.skip(0) =~= workspaces@);
    while i < workspaces.len()
        invariant
            i <= workspaces@.len(),
            git_dir_in(workspaces@, id@) == git_dir_in(workspaces@.skip(i as int), id@),
        decreases workspaces@.len() - i,
    {
        assert(workspaces@.skip(i as int).drop_first() =~= workspaces@.skip(i + 1));
        assert(workspaces@.skip(i as int)[0] == workspaces@[i as int]);
        if same_text(workspaces[i].id.as_str(), id) {
            return Some(workspaces[i].git_dir.clone());
        }
        i = i + 1;
    }
    None
}

/// The map view of a keyed vector.
pub open spec fn keyed_map<T>(v: Seq<(String, T)>) -> Map<Seq<char>, T> {
    Map::new(|k: Seq<char>| lookup_keyed(v, k) is Some, |k: Seq<char>| lookup_keyed(v, k)->0)
}

/// `m` without the keys that begin with `prefix`.
pub open spec fn without_prefix<T>(m: Map<Seq<char>, T>, prefix: Seq<char>) -> Map<Seq<char>, T> {
    Map::new(|k: Seq<char>| m.dom().contains(k) && !starts_with(k, prefix), |k: Seq<char>| m[k])
}

/// The in-memory caches of the changes endpoints: the discovered
/// workspaces, the tasks of each workspace, and the steps of each task
/// (under `<workspace>:<task>`).
pub struct ChangesCache {
    workspaces: Option<WorkspacesResponse>,
    tasks: Vec<(String, TasksResponse)>,
    steps: Vec<(String, StepsResponse)>,
}

impl ChangesCache {
    /// The cached workspaces.
    pub closed spec fn workspaces_view(&self) -> Option<WorkspacesResponse> {
        self.workspaces
    }

    /// The cached tasks, by workspace id.
    pub closed spec fn tasks_map(&self) -> Map<Seq<char>, TasksResponse> {
        keyed_map(self.tasks@)
    }

    /// The cached steps, by `<workspace>:<task>`.
    pub closed spec fn steps_map(&self) -> Map<Seq<char>, StepsResponse> {
        keyed_map(self.steps@)
    }

    /// Caches holding `workspaces` (as loaded from disk) and nothing else.
    pub fn new(workspaces: Option<WorkspacesResponse>) -> (r: ChangesCache)
        ensures
            r.workspaces_view() == workspaces,
            r.tasks_map() == Map::<Seq<char>, TasksResponse>::empty(),
            r.steps_map() == Map::<Seq<char>, StepsResponse>::empty(),
    {
        let r = ChangesCache { workspaces, tasks: Vec::new(), steps: Vec::new() };
        assert(keyed_map(r.tasks@) =~= Map::<Seq<char>, TasksResponse>::empty());
        assert(keyed_map(r.steps@) =~= Map::<Seq<char>, StepsResponse>::empty());
        r
    }

    /// The cached workspaces, unless the query asks to refresh.
    pub fn cached_workspaces(&self, refresh: Option<bool>) -> (r: Option<&WorkspacesResponse>)
        ensures
            wants_refresh(refresh) ==> r is None,
            !wants_refresh(refresh) ==> match self.workspaces_view() {
                Some(w) => r == Some(&w),
                None => r is None,
            },
    {
        let force = match refresh {
            Some(b) => b,
            None => false,
        };
        if force {
            None
        } else {
            self.workspaces.as_ref()
        }
    }

    /// Remember discovered workspaces.
    pub fn store_workspaces(&mut self, w: WorkspacesResponse)
        ensures
            final(self).workspaces_view() == Some(w),
            final(self).tasks_map() == old(self).tasks_map(),
            final(self).steps_map() == old(self).steps_map(),
    {
        self.workspaces = Some(w);
    }

    /// The git directory of a workspace, as the cached workspaces know it.
    pub fn cached_git_dir(&self, workspace: &str) -> (r: Option<String>)
        ensures
            match self.workspaces_view() {
                Some(w) => match r {
                    Some(d) => git_dir_in(w.workspaces@, workspace@) == Some(d@),
                    None => git_dir_in(w.workspaces@, workspace@) is None,
                },
                None => r is None,
            },
    {
        match &self.workspaces {
            Some(w) => find_git_dir(&w.workspaces, workspace),
            None => None,
        }
    }

    /// The cached tasks of a workspace, unless the query asks to refresh.
    pub fn cached_tasks(&self, workspace: &str, refresh: Option<bool>) -> (r: Option<
        &TasksResponse,
    >)
        ensures
            wants_refresh(refresh) ==> r is None,
            !wants_refresh(refresh) ==> match r {
                Some(t) => self.tasks_map().contains_key(workspace@) && self.tasks_map()[workspace@]
                    == *t,
                None => !self.tasks_map().contains_key(workspace@),
            },
    {
        let force = match refresh {
            Some(b) => b,
            None => false,
        };
        if force {
            return None;
        }
        match find_key(&self.tasks, workspace) {
            Some(i) => Some(&self.tasks[i].1),
            None => None,
        }
    }

    /// Remember the tasks of a workspace.
    pub fn store_tasks(&mut self, workspace: String, t: TasksResponse)
        ensures
            final(self).tasks_map() == old(self).tasks_map().insert(workspace@, t),
            final(self).workspaces_view() == old(self).workspaces_view(),
            final(self).steps_map() == old(self).steps_map(),
    {
        let ghost key = workspace@;
        let mut old_tasks = Vec::new();
        std::mem::swap(&mut old_tasks, &mut self.tasks);
        let ghost before = old_tasks@;
        self.tasks = put_keyed(old_tasks, workspace, t);
        assert(keyed_map(self.tasks@) =~= keyed_map(before).insert(key, t));
    }

    /// The cached steps of a task, unless the query asks to refresh.
    pub fn cached_steps(&self, workspace: &str, task_id: &str, refresh: Option<bool>) -> (r:
        Option<&StepsResponse>)
        ensures
            wants_refresh(refresh) ==> r is None,
            !wants_refresh(refresh) ==> match r {
                Some(s) => self.steps_map().contains_key(workspace@ + ":"@ + task_id@)
                    && self.steps_map()[workspace@ + ":"@ + task_id@] == *s,
                None => !self.steps_map().contains_key(workspace@ + ":"@ + task_id@),
            },
    {
        let force = match refresh {
            Some(b) => b,
            None => false,
        };
        if force {
            return None;
        }
        let key = steps_cache_key(workspace, task_id);
        match find_key(&self.steps, key.as_str()) {
            Some(i) => Some(&self.steps[i].1),
            None => None,
        }
    }

    /// Remember the steps of a task.
    pub fn store_steps(&mut self, workspace: &str, task_id: &str, s: StepsResponse)
        ensures
            final(self).steps_map() == old(self).steps_map().insert(
                workspace@ + ":"@ + task_id@,
                s,
            ),
            final(self).workspaces_view() == old(self).workspaces_view(),
            final(self).tasks_map() == old(self).tasks_map(),
    {
        let key = steps_cache_key(workspace, task_id);
        let ghost k = key@;
        let mut old_steps = Vec::new();
        std::mem::swap(&mut old_steps, &mut self.steps);
        let ghost before = old_steps@;
        self.steps = put_keyed(old_steps, key, s);
        assert(keyed_map(self.steps@) =~= keyed_map(before).insert(k, s));
    }

    /// Forget everything about a nuked workspace: its tasks, the steps of
    /// its tasks (the keys that begin with `<workspace>:`), and the
    /// discovered workspaces.
    pub fn invalidate_workspace(&mut self, workspace: &str)
        ensures
            final(self).workspaces_view() is None,
            final(self).tasks_map() == old(self).tasks_map().remove(workspace@),
            final(self).steps_map() == without_prefix(old(self).steps_map(), workspace@ + ":"@),
    {
        let mut old_tasks = Vec::new();
        std::mem::swap(&mut old_tasks, &mut self.tasks);
        let ghost tb = old_tasks@;
        self.tasks = remove_keys(old_tasks, workspace, false);
        assert forall|k: Seq<char>| #[trigger] lookup_keyed(self.tasks@, k) == (if key_is(
            workspace@,
        )(k) {
            None
        } else {
            lookup_keyed(tb, k)
        }) by {}
        assert(keyed_map(self.tasks@) =~= keyed_map(tb).remove(workspace@));
        let prefix = String::from_str(workspace).concat(":");
        let mut old_steps = Vec::new();
        std::mem::swap(&mut old_steps, &mut self.steps);
        let ghost sb = old_steps@;
        self.steps = remove_keys(old_steps, prefix.as_str(), true);
        assert forall|k: Seq<char>| #[trigger] lookup_keyed(self.steps@, k) == (if key_starts(
            prefix@,
        )(k) {
            None
        } else {
            lookup_keyed(sb, k)
        }) by {}
        assert(keyed_map(self.steps@) =~= without_prefix(keyed_map(sb), workspace@ + ":"@));
        self.workspaces = None;
    }
}

/// After tasks are stored for a workspace, the cache answers them for that
/// workspace and answers every other workspace as before.
pub proof fn law_tasks_read_after_write(
    before: Map<Seq<char>, TasksResponse>,
    workspace: Seq<char>,
    t: TasksResponse,
    other: Seq<char>,
)
    ensures
        before.insert(workspace, t).contains_key(workspace),
        before.insert(workspace, t)[workspace] == t,
        other != workspace ==> before.insert(workspace, t).contains_key(other)
            == before.contains_key(other),
        other != workspace && before.contains_key(other) ==> before.insert(workspace, t)[other]
            == before[other],
{
}

/// Nuking a workspace drops the steps of every one of its tasks, and of no
/// other workspace's task whose id differs in the workspace part.
pub proof fn law_nuke_drops_task_steps(
    steps: Map<Seq<char>, StepsResponse>,
    workspace: Seq<char>,
    task_id: Seq<char>,
)
    ensures
        !without_prefix(steps, workspace + ":"@).contains_key(workspace + ":"@ + task_id),
{
    let k = workspace + ":"@ + task_id;
    let p = workspace + ":"@;
    assert(k.take(p.len() as int) =~= p);
}

/// Whether a list of workspaces names `id` with the given git directory.
pub open spec fn git_dir_known(ws: Option<WorkspacesResponse>, id: Seq<char>) -> Option<Seq<char>> {
    match ws {
        Some(w) => git_dir_in(w.workspaces@, id),
        None => None,
    }
}

// ---------------------------------------------------------------------------
// Nuking a workspace
// ---------------------------------------------------------------------------

/// The refusal to nuke, given the git directory's final component
/// (`dir_name`) and whether it exists.
pub open spec fn nuke_refusal(
    workspace_id: Seq<char>,
    git_dir: Seq<char>,
    dir_name: Seq<char>,
    exists: bool,
) -> Option<Seq<char>> {
    if dir_name == ".git_disabled"@ {
        Some(
            "Cannot nuke workspace '"@ + workspace_id
                + "': git dir is '.git_disabled' — Cline is actively running a task. Wait for the task to finish before nuking."@,
        )
    } else if dir_name != ".git"@ {
        Some(
            "Cannot nuke workspace '"@ + workspace_id + "': unexpected git dir name '"@ + dir_name
                + "' (expected '.git')"@,
        )
    } else if !exists {
        Some(
            "Cannot nuke workspace '"@ + workspace_id + "': git dir does not exist at '"@ + git_dir
                + "'"@,
        )
    } else {
        None
    }
}

/// The safety checks before nuking: the git directory must be an existing
/// `.git` (not `.git_disabled`, which means Cline is running a task).
pub fn nuke_precheck(workspace_id: &str, git_dir: &str, dir_name: &str, exists: bool) -> (r:
    Result<(), String>)
    ensures
        match nuke_refusal(workspace_id@, git_dir@, dir_name@, exists) {
            Some(m) => r matches Err(e) && e@ == m,
            None => r is Ok,
        },
{
    if same_text(dir_name, ".git_disabled") {
        return Err(
            String::from_str("Cannot nuke workspace '").concat(workspace_id).concat(
                "': git dir is '.git_disabled' — Cline is actively running a task. Wait for the task to finish before nuking.",
            ),
        );
    }
    if !same_text(dir_name, ".git") {
        return Err(
            String::from_str("Cannot nuke workspace '").concat(workspace_id).concat(
                "': unexpected git dir name '",
            ).concat(dir_name).concat("' (expected '.git')"),
        );
    }
    if !exists {
        return Err(
            String::from_str("Cannot nuke workspace '").concat(workspace_id).concat(
                "': git dir does not exist at '",
            ).concat(git_dir).concat("'"),
        );
    }
    Ok(())
}

/// The task id of a commit subject `checkpoint-<ws>-<task>`: what follows
/// the second `-` (`splitn(3, '-')`), when there are two.
pub open spec fn subject_third_part(line: Seq<char>) -> Option<Seq<char>> {
    match crate::text::first_from(line, '-', 0) {
        Some(a) => match crate::text::first_from(line, '-', a + 1) {
            Some(b) => Some(line.skip(b + 1)),
            None => None,
        },
        None => None,
    }
}

/// The distinct task ids of a list of subjects.
pub open spec fn subject_task_set(ls: Seq<Seq<char>>) -> Set<Seq<char>>
    decreases ls.len(),
{
    if ls.len() == 0 {
        Set::empty()
    } else {
        let rest = subject_task_set(ls.drop_last());
        match subject_third_part(ls.last()) {
            Some(t) => rest.insert(t),
            None => rest,
        }
    }
}

/// The number of commits and of distinct task ids in the output of
/// `git log --all --pretty=format:%s` (one subject per line).
pub fn count_commits_and_tasks(log: &str) -> (r: (usize, usize))
    ensures
        r.0 == lines_of(log@).len(),
        r.1 == subject_task_set(lines_of(log@)).len(),
{
    let text = chars_of(log);
    let lines = split_lines(&text);
    let mut ids: Vec<String> = Vec::new();
    let mut i: usize = 0;
    while i < lines.len()
        invariant
            i <= lines@.len(),
            crate::text::char_vecs_view(lines@) == lines_of(log@),
            crate::text::strings_view(ids@).to_set() == subject_task_set(
                crate::text::char_vecs_view(lines@).take(i as int),
            ),
            crate::text::strictly_sorted(crate::text::strings_view(ids@)),
        decreases lines@.len() - i,
    {
        let line = &lines[i];
        let n = line.len();
        let ghost ls = crate::text::char_vecs_view(lines@);
        proof {
            assert(ls.take(i + 1).drop_last() =~= ls.take(i as int));
            assert(ls[i as int] == line@);
        }
        match crate::text::find_char_from(line, '-', 0) {
            Some(a) => match crate::text::find_char_from(line, '-', a + 1) {
                Some(b) => {
                    let t = crate::text::sub_chars(line, b + 1, n);
                    assert(t@ =~= line@.skip(b + 1));
                    insert_sorted_unique(&mut ids, crate::text::string_from_chars(&t));
                },
                None => {},
            },
            None => {},
        }
        i = i + 1;
    }
    proof {
        let ls = crate::text::char_vecs_view(lines@);
        assert(ls.take(i as int) =~= ls);
        crate::text::lemma_sorted_no_duplicates(crate::text::strings_view(ids@));
        crate::text::strings_view(ids@).unique_seq_to_set();
    }
    (lines.len(), ids.len())
}

/// The response of a successful nuke.
pub fn nuke_response(workspace_id: &str, git_dir: &str, commits: usize, tasks: usize) -> (r:
    NukeWorkspaceResponse)
    ensures
        r.workspace_id@ == workspace_id@,
        r.deleted_commits == commits,
        r.deleted_tasks == tasks,
        r.git_command@ == "git init --bare \""@ + git_dir@ + "\""@,
        r.success,
{
    NukeWorkspaceResponse {
        workspace_id: String::from_str(workspace_id),
        deleted_commits: commits,
        deleted_tasks: tasks,
        git_command: String::from_str("git init --bare \"").concat(git_dir).concat("\""),
        success: true,
    }
}

// ---------------------------------------------------------------------------
// File contents
// ---------------------------------------------------------------------------

/// The checks of a file contents request: a workspace, then a git ref, are
/// required; no paths answers an empty response at once.
pub fn file_contents_precheck(req: &FileContentsRequest) -> (r: Result<
    Option<FileContentsResponse>,
    ChangesErrorResponse,
>)
    ensures
        req.workspace@.len() == 0 ==> (r matches Err(e) && e.code == 400 && e.error@
            == "Missing required 'workspace' field"@),
        req.workspace@.len() != 0 && req.git_ref@.len() == 0 ==> (r matches Err(e) && e.code
            == 400 && e.error@ == "Missing required 'gitRef' field"@),
        req.workspace@.len() != 0 && req.git_ref@.len() != 0 && req.paths@.len() == 0 ==> (r matches Ok(
            Some(resp),
        ) && resp.files@.len() == 0 && resp.retrieved == 0 && resp.failed == 0 && resp.total_size
            == 0),
        req.workspace@.len() != 0 && req.git_ref@.len() != 0 && req.paths@.len() != 0 ==> r
            == Ok::<Option<FileContentsResponse>, ChangesErrorResponse>(None),
{
    if chars_of(req.workspace.as_str()).len() == 0 {
        return Err(
            ChangesErrorResponse {
                error: String::from_str("Missing required 'workspace' field"),
                code: 400,
            },
        );
    }
    if chars_of(req.git_ref.as_str()).len() == 0 {
        return Err(
            ChangesErrorResponse {
                error: String::from_str("Missing required 'gitRef' field"),
                code: 400,
            },
        );
    }
    if req.paths.len() == 0 {
        return Ok(
            Some(FileContentsResponse { files: Vec::new(), retrieved: 0, failed: 0, total_size: 0 }),
        );
    }
    Ok(None)
}

/// The number of files whose content was read.
pub open spec fn count_retrieved(files: Seq<FileContent>) -> nat
    decreases files.len(),
{
    if files.len() == 0 {
        0
    } else {
        count_retrieved(files.drop_last()) + (if files.last().content is Some {
            1nat
        } else {
            0nat
        })
    }
}

/// The total size of the files whose size is known.
pub open spec fn total_size(files: Seq<FileContent>) -> nat
    decreases files.len(),
{
    if files.len() == 0 {
        0
    } else {
        total_size(files.drop_last()) + (match files.last().size {
            Some(s) => s as nat,
            None => 0nat,
        })
    }
}

proof fn lemma_total_size_prefix(files: Seq<FileContent>, i: int)
    requires
        0 <= i <= files.len(),
    ensures
        total_size(files.take(i)) <= total_size(files),
    decreases files.len() - i,
{
    if i < files.len() {
        lemma_total_size_prefix(files, i + 1);
        assert(files.take(i + 1).drop_last() =~= files.take(i));
    } else {
        assert(files.take(i) =~= files);
    }
}

/// The response for the files read: how many were retrieved, how many
/// failed, and their total size.
pub fn file_contents_response(files: Vec<FileContent>) -> (r: FileContentsResponse)
    requires
        total_size(files@) <= usize::MAX,
    ensures
        r.files == files,
        r.retrieved == count_retrieved(files@),
        r.failed == files@.len() - count_retrieved(files@),
        r.total_size == total_size(files@),
{
    let mut retrieved: usize = 0;
    let mut size: usize = 0;
    let mut i: usize = 0;
    assert(files@.take(0) =~= Seq::<FileContent>::empty());
    while i < files.len()
        invariant
            i <= files@.len(),
            total_size(files@) <= usize::MAX,
            retrieved == count_retrieved(files@.take(i as int)),
            retrieved <= i,
            size == total_size(files@.take(i as int)),
        decreases files@.len() - i,
    {
        assert(files@.take(i + 1).drop_last() =~= files@.take(i as int));
        proof {
            lemma_total_size_prefix(files@, i + 1);
        }
        if files[i].content.is_some() {
            retrieved = retrieved + 1;
        }
        match files[i].size {
            Some(s) => {
                size = size + s;
            },
            None => {},
        }
        i = i + 1;
    }
    assert(files@.take(i as int) =~= files@);
    let failed = files.len() - retrieved;
    FileContentsResponse { files, retrieved, failed, total_size: size }
}

// ---------------------------------------------------------------------------
// Subtask diff selection
// ---------------------------------------------------------------------------

/// The first and last step of subtask `index` among the mappings
/// `(subtask, first step, last step)` (first match).
pub open spec fn mapping_for(m: Seq<(usize, usize, usize)>, index: usize) -> Option<(usize, usize)>
    decreases m.len(),
{
    if m.len() == 0 {
        None
    } else if m[0].0 == index {
        Some((m[0].1, m[0].2))
    } else {
        mapping_for(m.drop_first(), index)
    }
}

/// The refusal of a subtask diff, if any: the index must be below the
/// number of subtasks, the task must have steps, and the subtask must have
/// steps in its time window.
pub open spec fn subtask_refusal(
    task_id: Seq<char>,
    index: usize,
    total: usize,
    step_count: usize,
    m: Seq<(usize, usize, usize)>,
) -> Option<Seq<char>> {
    if index >= total {
        Some(
            "Subtask index "@ + decimal(index as nat) + " out of range (task has "@ + decimal(
                total as nat,
            ) + " subtasks)"@,
        )
    } else if step_count == 0 {
        Some("No checkpoint steps for task '"@ + task_id + "'"@)
    } else if mapping_for(m, index) is None {
        Some(
            "No checkpoint steps found within subtask #"@ + decimal(index as nat)
                + "'s time window"@,
        )
    } else {
        None
    }
}

/// Select the steps of a subtask's diff from the subtask-to-step mappings.
pub fn select_subtask_steps(
    task_id: &str,
    index: usize,
    total: usize,
    step_count: usize,
    mappings: &[(usize, usize, usize)],
) -> (r: Result<(usize, usize), String>)
    ensures
        match subtask_refusal(task_id@, index, total, step_count, mappings@) {
            Some(m) => r matches Err(e) && e@ == m,
            None => r == Ok::<(usize, usize), String>(mapping_for(mappings@, index).unwrap()),
        },
{
    if index >= total {
        return Err(
            String::from_str("Subtask index ").concat(decimal_string(index as u64).as_str()).concat(
                " out of range (task has ",
            ).concat(decimal_string(total as u64).as_str()).concat(" subtasks)"),
        );
    }
    if step_count == 0 {
        return Err(String::from_str("No checkpoint steps for task '").concat(task_id).concat("'"));
    }
    let mut i: usize = 0;
    assert(mappings@.skip(0) =~= mappings@);
    while i < mappings.len()
        invariant
            i <= mappings@.len(),
            index < total,
            step_count != 0,
            mapping_for(mappings@, index) == mapping_for(mappings@.skip(i as int), index),
        decreases mappings@.len() - i,
    {
        assert(mappings@.skip(i as int).drop_first() =~= mappings@.skip(i + 1));
        assert(mappings@.skip(i as int)[0] == mappings@[i as int]);
        if mappings[i].0 == index {
            assert(mapping_for(mappings@.skip(i as int), index) == Some(
                (mappings@[i as int].1, mappings@[i as int].2),
            ));
            return Ok((mappings[i].1, mappings[i].2));
        }
        i = i + 1;
    }
    Err(
        String::from_str("No checkpoint steps found within subtask #").concat(
            decimal_string(index as u64).as_str(),
        ).concat("'s time window"),
    )
}

/// The error for a task whose subtasks cannot be read.
pub fn no_subtask_data(task_id: &str) -> (r: String)
    ensures
        r@ == "No subtask data for task '"@ + task_id@
            + "' (ui_messages.json not found or no task entry)"@,
{
    String::from_str("No subtask data for task '").concat(task_id).concat(
        "' (ui_messages.json not found or no task entry)",
    )
}

/// The error for a git directory that has gone (Cline renames `.git` to
/// `.git_disabled` while it runs a task).
pub fn git_dir_missing(git_dir: &str) -> (r: String)
    ensures
        r@ == "Git directory does not exist (Cline may have disabled it): "@ + git_dir@,
{
    String::from_str("Git directory does not exist (Cline may have disabled it): ").concat(git_dir)
}

/// The checkpoints directory under Cline's storage root: `<root>` joined
/// with `checkpoints` (none when Cline's root was not found).
pub fn checkpoints_root(cline_root: Option<String>, separator: char) -> (r: Option<String>)
    ensures
        match cline_root {
            Some(root) => r matches Some(p) && p@ == crate::text::joined_path(
                root@,
                "checkpoints"@,
                separator,
            ),
            None => r is None,
        },
{
    match cline_root {
        Some(root) => Some(crate::text::join_path(root.as_str(), "checkpoints", separator)),
        None => None,
    }
}

} // verus!
