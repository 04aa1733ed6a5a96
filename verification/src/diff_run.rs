//! The run of git commands behind a step, task or subtask diff: `git diff
//! --numstat` for the files, then `git diff` for the patch, each with a
//! `git diff-tree` fallback for root commits, and the record of the command
//! lines. The caller runs each command and hands back what git gave.

use vstd::prelude::*;
use crate::shadow_git::{
    DiffFile, DiffResult, diff_args_spec, diff_files_view, git_command_line, git_diff_args,
    numstat_files, parse_numstat,
};
use crate::task_groups::GitRun;
use crate::text::{join, strings_view};

verus! {

/// Which diff is computed; they differ in the fallback commands they record.
pub enum DiffKind {
    /// One checkpoint step (no exclude patterns).
    Step,
    /// A whole task.
    Task,
    /// One subtask phase.
    Subtask,
}

/// Where the run stands.
pub enum DiffPhase {
    /// `git diff --numstat` was asked for.
    Numstat,
    /// Its `git diff-tree --numstat` fallback was asked for.
    NumstatFallback,
    /// `git diff` (the patch) was asked for.
    Patch,
    /// Its `git diff-tree -p` fallback was asked for; the failed patch
    /// command printed `failed_stdout`.
    PatchFallback { failed_stdout: String },
    /// The run is over.
    Finished,
}

/// What the caller does next.
pub enum DiffStep {
    /// Run git with these arguments and hand back what it gave.
    Run(Vec<String>),
    /// The diff is complete.
    Done(DiffResult),
    /// The diff failed with this message.
    Failed(String),
}

/// A diff in progress.
pub struct DiffRun {
    pub kind: DiffKind,
    pub git_dir: String,
    pub from_ref: String,
    pub to_ref: String,
    pub excludes: Vec<String>,
    /// The files found so far.
    pub files: Vec<DiffFile>,
    /// The command lines recorded so far.
    pub commands: Vec<String>,
    pub phase: DiffPhase,
}

/// `git <args>` as recorded.
pub open spec fn command_text(args: Seq<Seq<char>>) -> Seq<char> {
    "git "@ + join(args, " "@)
}

/// The arguments of the `git diff-tree --numstat` fallback, restricted by
/// the exclude patterns.
pub open spec fn numstat_fallback_args(git_dir: Seq<char>, to: Seq<char>, excludes: Seq<Seq<char>>) -> Seq<
    Seq<char>,
> {
    seq!["--git-dir"@, git_dir, "diff-tree"@, "--numstat"@, "--no-commit-id"@, "-r"@, to]
        + excludes.map_values(|e: Seq<char>| ":(exclude)"@ + e)
}

/// The arguments of the `git diff-tree -p` fallback.
pub open spec fn patch_fallback_args(git_dir: Seq<char>, to: Seq<char>) -> Seq<Seq<char>> {
    seq!["--git-dir"@, git_dir, "diff-tree"@, "-p"@, "--no-commit-id"@, "-r"@, to]
}

/// Whether the numstat fallback is recorded (not for subtasks).
pub open spec fn records_numstat_fallback(kind: DiffKind) -> bool {
    !(kind is Subtask)
}

/// Whether the patch fallback is recorded (only for steps).
pub open spec fn records_patch_fallback(kind: DiffKind) -> bool {
    kind is Step
}

/// The arguments the run asks for.
pub open spec fn run_args(step: DiffStep) -> Seq<Seq<char>> {
    match step {
        DiffStep::Run(args) => strings_view(args@),
        _ => Seq::<Seq<char>>::empty(),
    }
}

impl DiffRun {
    /// The run is well formed: it is in a phase that expects an answer.
    pub open spec fn waiting(&self) -> bool {
        !(self.phase is Finished)
    }

    /// Start a diff between two refs of the repo at `git_dir`: it first
    /// asks for `git diff --numstat`, which it records.
    pub fn start(kind: DiffKind, git_dir: String, from_ref: String, to_ref: String, excludes: Vec<
        String,
    >) -> (r: (DiffRun, DiffStep))
        ensures
            r.0.kind == kind,
            r.0.git_dir@ == git_dir@,
            r.0.from_ref@ == from_ref@,
            r.0.to_ref@ == to_ref@,
            strings_view(r.0.excludes@) == strings_view(excludes@),
            r.0.files@.len() == 0,
            r.0.phase is Numstat,
            r.1 is Run,
            run_args(r.1) == diff_args_spec(git_dir@, true, from_ref@, to_ref@, strings_view(excludes@)),
            strings_view(r.0.commands@) == seq![command_text(run_args(r.1))],
    {
        let args = git_diff_args(git_dir.as_str(), true, from_ref.as_str(), to_ref.as_str(), excludes.as_slice());
        let line = git_command_line(args.as_slice());
        let mut commands: Vec<String> = Vec::new();
        commands.push(line);
        assert(strings_view(commands@) =~= seq![command_text(strings_view(args@))]);
        let run = DiffRun {
            kind,
            git_dir,
            from_ref,
            to_ref,
            excludes,
            files: Vec::new(),
            commands,
            phase: DiffPhase::Numstat,
        };
        (run, DiffStep::Run(args))
    }

    /// The `git diff-tree --numstat` fallback arguments.
    fn numstat_fallback(&self) -> (r: Vec<String>)
        ensures
            strings_view(r@) == numstat_fallback_args(self.git_dir@, self.to_ref@, strings_view(self.excludes@)),
    {
        let mut r: Vec<String> = Vec::new();
        r.push(String::from_str("--git-dir"));
        r.push(self.git_dir.clone());
        r.push(String::from_str("diff-tree"));
        r.push(String::from_str("--numstat"));
        r.push(String::from_str("--no-commit-id"));
        r.push(String::from_str("-r"));
        r.push(self.to_ref.clone());
        let ghost head = strings_view(r@);
        let mut i: usize = 0;
        while i < self.excludes.len()
            invariant
                i <= self.excludes@.len(),
                strings_view(r@) == head + strings_view(self.excludes@).take(i as int).map_values(
                    |e: Seq<char>| ":(exclude)"@ + e,
                ),
            decreases self.excludes@.len() - i,
        {
            let ghost before = strings_view(r@);
            r.push(String::from_str(":(exclude)").concat(self.excludes[i].as_str()));
            i = i + 1;
            assert(strings_view(self.excludes@).take(i as int).map_values(|e: Seq<char>| ":(exclude)"@ + e)
                =~= strings_view(self.excludes@).take(i - 1).map_values(|e: Seq<char>| ":(exclude)"@ + e).push(
                ":(exclude)"@ + self.excludes@[i - 1]@));
            assert(strings_view(r@) =~= before.push(":(exclude)"@ + self.excludes@[i - 1]@));
        }
        assert(strings_view(self.excludes@).take(i as int) =~= strings_view(self.excludes@));
        assert(head =~= seq!["--git-dir"@, self.git_dir@, "diff-tree"@, "--numstat"@, "--no-commit-id"@, "-r"@, self.to_ref@]);
        r
    }

    /// The `git diff-tree -p` fallback arguments.
    fn patch_fallback(&self) -> (r: Vec<String>)
        ensures
            strings_view(r@) == patch_fallback_args(self.git_dir@, self.to_ref@),
    {
        let mut r: Vec<String> = Vec::new();
        r.push(String::from_str("--git-dir"));
        r.push(self.git_dir.clone());
        r.push(String::from_str("diff-tree"));
        r.push(String::from_str("-p"));
        r.push(String::from_str("--no-commit-id"));
        r.push(String::from_str("-r"));
        r.push(self.to_ref.clone());
        assert(strings_view(r@) =~= patch_fallback_args(self.git_dir@, self.to_ref@));
        r
    }

    /// Ask for the patch (`git diff`), recording the command.
    fn ask_patch(&mut self) -> (r: DiffStep)
        ensures
            final(self).kind == old(self).kind,
            final(self).git_dir == old(self).git_dir,
            final(self).from_ref == old(self).from_ref,
            final(self).to_ref == old(self).to_ref,
            final(self).excludes == old(self).excludes,
            final(self).files == old(self).files,
            final(self).phase is Patch,
            r is Run,
            run_args(r) == diff_args_spec(
                old(self).git_dir@,
                false,
                old(self).from_ref@,
                old(self).to_ref@,
                strings_view(old(self).excludes@),
            ),
            strings_view(final(self).commands@) == strings_view(old(self).commands@).push(
                command_text(run_args(r)),
            ),
    {
        let args = git_diff_args(
            self.git_dir.as_str(),
            false,
            self.from_ref.as_str(),
            self.to_ref.as_str(),
            self.excludes.as_slice(),
        );
        let ghost before = strings_view(self.commands@);
        self.commands.push(git_command_line(args.as_slice()));
        assert(strings_view(self.commands@) =~= before.push(command_text(strings_view(args@))));
        self.phase = DiffPhase::Patch;
        DiffStep::Run(args)
    }

    /// The result, once the patch text is known.
    fn finish(&mut self, patch: String) -> (r: DiffStep)
        ensures
            final(self).kind == old(self).kind,
            final(self).git_dir == old(self).git_dir,
            final(self).from_ref == old(self).from_ref,
            final(self).to_ref == old(self).to_ref,
            final(self).excludes == old(self).excludes,
            final(self).phase is Finished,
            r matches DiffStep::Done(d) && {
                &&& diff_files_view(d.files@) == diff_files_view(old(self).files@)
                &&& d.patch@ == patch@
                &&& d.from_ref@ == old(self).from_ref@
                &&& d.to_ref@ == old(self).to_ref@
                &&& strings_view(d.git_commands@) == strings_view(old(self).commands@)
            },
    {
        let mut files: Vec<DiffFile> = Vec::new();
        core::mem::swap(&mut files, &mut self.files);
        let mut commands: Vec<String> = Vec::new();
        core::mem::swap(&mut commands, &mut self.commands);
        self.phase = DiffPhase::Finished;
        DiffStep::Done(
            DiffResult {
                files,
                patch,
                from_ref: self.from_ref.clone(),
                to_ref: self.to_ref.clone(),
                git_commands: commands,
            },
        )
    }

    /// Hand back what the last git command gave; the run says what to do
    /// next.
    pub fn advance(&mut self, run: GitRun) -> (r: DiffStep)
        requires
            old(self).waiting(),
        ensures
            final(self).kind == old(self).kind,
            final(self).from_ref == old(self).from_ref,
            final(self).to_ref == old(self).to_ref,
            final(self).git_dir == old(self).git_dir,
            final(self).excludes == old(self).excludes,
            ({
                let s = *old(self);
                let dir = s.git_dir@;
                let ex = strings_view(s.excludes@);
                let patch_args = diff_args_spec(dir, false, s.from_ref@, s.to_ref@, ex);
                let cmds = strings_view(s.commands@);
                match s.phase {
                    DiffPhase::Numstat => match run {
                        GitRun::NotStarted(e) => final(self).phase is Finished && (r matches DiffStep::Failed(m)
                            && m@ == "Failed to run git diff --numstat: "@ + e@),
                        GitRun::Ran { success, stdout } => if success {
                            &&& final(self).phase is Patch
                            &&& diff_files_view(final(self).files@) == numstat_files(stdout@)
                            &&& r is Run && run_args(r) == patch_args
                            &&& strings_view(final(self).commands@) == cmds.push(command_text(patch_args))
                        } else {
                            let fb = numstat_fallback_args(dir, s.to_ref@, ex);
                            &&& final(self).phase is NumstatFallback
                            &&& final(self).files == s.files
                            &&& r is Run && run_args(r) == fb
                            &&& strings_view(final(self).commands@) == if records_numstat_fallback(s.kind) {
                                cmds.push(command_text(fb) + " (fallback)"@)
                            } else {
                                cmds
                            }
                        },
                    },
                    DiffPhase::NumstatFallback => match run {
                        GitRun::NotStarted(e) => final(self).phase is Finished && (r matches DiffStep::Failed(m)
                            && m@ == "Failed to run git diff-tree: "@ + e@),
                        GitRun::Ran { stdout, .. } => {
                            &&& final(self).phase is Patch
                            &&& diff_files_view(final(self).files@) == numstat_files(stdout@)
                            &&& r is Run && run_args(r) == patch_args
                            &&& strings_view(final(self).commands@) == cmds.push(command_text(patch_args))
                        },
                    },
                    DiffPhase::Patch => match run {
                        GitRun::NotStarted(e) => final(self).phase is Finished && (r matches DiffStep::Failed(m)
                            && m@ == "Failed to run git diff: "@ + e@),
                        GitRun::Ran { success, stdout } => if success {
                            &&& final(self).phase is Finished
                            &&& r matches DiffStep::Done(d) && {
                                &&& diff_files_view(d.files@) == diff_files_view(s.files@)
                                &&& d.patch@ == stdout@
                                &&& d.from_ref@ == s.from_ref@
                                &&& d.to_ref@ == s.to_ref@
                                &&& strings_view(d.git_commands@) == cmds
                            }
                        } else {
                            let fb = patch_fallback_args(dir, s.to_ref@);
                            &&& final(self).phase matches DiffPhase::PatchFallback { failed_stdout }
                                && failed_stdout@ == stdout@
                            &&& final(self).files == s.files
                            &&& r is Run && run_args(r) == fb
                            &&& strings_view(final(self).commands@) == if records_patch_fallback(s.kind) {
                                cmds.push(command_text(fb) + " (fallback)"@)
                            } else {
                                cmds
                            }
                        },
                    },
                    DiffPhase::PatchFallback { failed_stdout } => {
                        let patch = match run {
                            GitRun::NotStarted(_) => failed_stdout@,
                            GitRun::Ran { stdout, .. } => stdout@,
                        };
                        &&& final(self).phase is Finished
                        &&& r matches DiffStep::Done(d) && {
                            &&& diff_files_view(d.files@) == diff_files_view(s.files@)
                            &&& d.patch@ == patch
                            &&& d.from_ref@ == s.from_ref@
                            &&& d.to_ref@ == s.to_ref@
                            &&& strings_view(d.git_commands@) == cmds
                        }
                    },
                    DiffPhase::Finished => false,
                }
            }),
    {
        let saved = match &self.phase {
            DiffPhase::PatchFallback { failed_stdout } => failed_stdout.clone(),
            _ => String::new(),
        };
        match &self.phase {
            DiffPhase::Numstat => match run {
                GitRun::NotStarted(e) => {
                    self.phase = DiffPhase::Finished;
                    DiffStep::Failed(String::from_str("Failed to run git diff --numstat: ").concat(e.as_str()))
                },
                GitRun::Ran { success, stdout } => {
                    if success {
                        self.files = parse_numstat(stdout.as_str());
                        self.ask_patch()
                    } else {
                        let args = self.numstat_fallback();
                        let recorded = match self.kind {
                            DiffKind::Subtask => false,
                            _ => true,
                        };
                        if recorded {
                            let ghost before = strings_view(self.commands@);
                            let line = git_command_line(args.as_slice()).concat(" (fallback)");
                            self.commands.push(line);
                            assert(strings_view(self.commands@) =~= before.push(
                                command_text(strings_view(args@)) + " (fallback)"@,
                            ));
                        }
                        self.phase = DiffPhase::NumstatFallback;
                        DiffStep::Run(args)
                    }
                },
            },
            DiffPhase::NumstatFallback => match run {
                GitRun::NotStarted(e) => {
                    self.phase = DiffPhase::Finished;
                    DiffStep::Failed(String::from_str("Failed to run git diff-tree: ").concat(e.as_str()))
                },
                GitRun::Ran { stdout, .. } => {
                    self.files = parse_numstat(stdout.as_str());
                    self.ask_patch()
                },
            },
            DiffPhase::Patch => match run {
                GitRun::NotStarted(e) => {
                    self.phase = DiffPhase::Finished;
                    DiffStep::Failed(String::from_str("Failed to run git diff: ").concat(e.as_str()))
                },
                GitRun::Ran { success, stdout } => {
                    if success {
                        self.finish(stdout)
                    } else {
                        let args = self.patch_fallback();
                        let recorded = match self.kind {
                            DiffKind::Step => true,
                            _ => false,
                        };
                        if recorded {
                            let ghost before = strings_view(self.commands@);
                            let line = git_command_line(args.as_slice()).concat(" (fallback)");
                            self.commands.push(line);
                            assert(strings_view(self.commands@) =~= before.push(
                                command_text(strings_view(args@)) + " (fallback)"@,
                            ));
                        }
                        self.phase = DiffPhase::PatchFallback { failed_stdout: stdout };
                        DiffStep::Run(args)
                    }
                },
            },
            DiffPhase::PatchFallback { .. } => match run {
                GitRun::NotStarted(_) => self.finish(saved),
                GitRun::Ran { stdout, .. } => self.finish(stdout),
            },
            DiffPhase::Finished => DiffStep::Failed(String::new()),
        }
    }
}

} // verus!
