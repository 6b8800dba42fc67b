//! The action orchestrator: a state machine that, for one requested
//! action (pull, push, merge) in one execution mode (local or over the
//! remote shell), decides the ordered sequence of git commands, applies
//! the safety preconditions, and aggregates the executed steps into one
//! outcome.
//!
//! The machine performs no I/O. `run_action_start` validates the request
//! and yields either an early outcome or the first command;
//! `run_action_step` consumes the captured result of the last command and
//! yields the next command or the final outcome. The whole transition
//! relation is the spec functions `start_spec` and `next_spec`; each
//! executable function is proved to follow them exactly.

use vstd::prelude::*;
use vstd::string::*;
use crate::commands::{build_ssh_args, remote_cd, remote_cd_spec, ssh_args_spec, CmdSpec, CmdView, port_spec};
use crate::model::{
    all_ok, all_steps_ok, clone_opt_string, clone_step, clone_steps, fs_kind_at,
    opt_seq_or_empty, opt_str_view, push_step, ActionError, ActionOutcome, ErrView, FileKind,
    FsEntry, FsView, OutcomeView, ReqView, RunActionRequest, StepResult, StepView,
};
use crate::quote::{shell_escape_posix_single, shell_escape_spec};
use crate::text::{contains_substr, has_substr, str_eq, trim_spec, trim_str};

verus! {

/// Where commands run.
#[derive(Clone, Copy, PartialEq, Eq, Structural, Debug)]
pub enum Mode {
    Local,
    Ssh,
}

/// What the run is asked to do.
#[derive(Clone, Copy, PartialEq, Eq, Structural, Debug)]
pub enum Action {
    Pull,
    Push,
    Merge,
}

/// Which command the machine is waiting on.
#[derive(Clone, Copy, PartialEq, Eq, Structural, Debug)]
pub enum Phase {
    /// Awaiting current-branch detection.
    DetectBranch,
    /// Awaiting the HEAD-resolves-to-a-commit probe.
    DetectHead,
    /// Awaiting the porcelain status query.
    CheckStatus,
    /// Awaiting the auto-stash of a dirty tree before pull or merge.
    Stash,
    /// Awaiting staging of a dirty tree before a push commit.
    AddAll,
    /// Awaiting the commit of staged changes.
    CommitStep,
    /// Awaiting the empty commit of a commit-less repository (remote
    /// mode, before fetch).
    EmptyCommitEarly,
    /// Awaiting the fetch from origin.
    FetchStep,
    /// Awaiting the checkout of the target branch.
    CheckoutStep,
    /// Awaiting the empty commit of a commit-less repository (local
    /// mode, after checkout).
    EmptyCommitLate,
    /// Awaiting the fast-forward-only pull.
    PullStep,
    /// Awaiting the push of the target branch.
    PushStep,
    /// Awaiting the fetch of the merge-source branch.
    FetchFrom,
    /// Awaiting the no-fast-forward merge.
    MergeStep,
    /// Awaiting the push that follows a merge.
    PushAfterMerge,
    /// The run has produced its outcome.
    Settled,
}

pub open spec fn mode_str(m: Mode) -> Seq<char> {
    match m {
        Mode::Local => "local"@,
        Mode::Ssh => "ssh"@,
    }
}

pub open spec fn action_str(a: Action) -> Seq<char> {
    match a {
        Action::Pull => "pull"@,
        Action::Push => "push"@,
        Action::Merge => "merge"@,
    }
}

/// The orchestrator's state between two commands.
pub struct Orchestrator {
    pub mode: Mode,
    pub action: Action,
    pub env_key: String,
    pub branch: String,
    pub exe: String,
    pub path: String,
    pub host: String,
    pub user: String,
    pub port: u16,
    pub key: Option<String>,
    pub merge_from: Option<String>,
    pub commit_message: Option<String>,
    pub phase: Phase,
    pub steps: Vec<StepResult>,
    pub pending_branch: Option<StepResult>,
    pub current_branch: String,
    pub has_commits: bool,
    pub clean: bool,
}

/// Mathematical image of the orchestrator's state.
#[verifier::ext_equal]
pub ghost struct OrchView {
    pub mode: Mode,
    pub action: Action,
    pub env_key: Seq<char>,
    pub branch: Seq<char>,
    pub exe: Seq<char>,
    pub path: Seq<char>,
    pub host: Seq<char>,
    pub user: Seq<char>,
    pub port: u16,
    pub key: Option<Seq<char>>,
    pub merge_from: Option<Seq<char>>,
    pub commit_message: Option<Seq<char>>,
    pub phase: Phase,
    pub steps: Seq<StepView>,
    pub pending_branch: Option<StepView>,
    pub current_branch: Seq<char>,
    pub has_commits: bool,
    pub clean: bool,
}

pub open spec fn opt_step_view(o: Option<StepResult>) -> Option<StepView> {
    match o {
        Some(s) => Some(s@),
        None => None,
    }
}

impl View for Orchestrator {
    type V = OrchView;

    open spec fn view(&self) -> OrchView {
        OrchView {
            mode: self.mode,
            action: self.action,
            env_key: self.env_key@,
            branch: self.branch@,
            exe: self.exe@,
            path: self.path@,
            host: self.host@,
            user: self.user@,
            port: self.port,
            key: opt_str_view(self.key),
            merge_from: opt_str_view(self.merge_from),
            commit_message: opt_str_view(self.commit_message),
            phase: self.phase,
            steps: self.steps.deep_view(),
            pending_branch: opt_step_view(self.pending_branch),
            current_branch: self.current_branch@,
            has_commits: self.has_commits,
            clean: self.clean,
        }
    }
}

/// What the executor is told to do next.
pub enum RunOp {
    /// Run this command and feed the captured result back in.
    Run(CmdSpec),
    /// The run is over; this is its outcome.
    Done(ActionOutcome),
}

#[verifier::ext_equal]
pub ghost enum OpView {
    Run(CmdView),
    Done(OutcomeView),
}

impl View for RunOp {
    type V = OpView;

    open spec fn view(&self) -> OpView {
        match self {
            RunOp::Run(c) => OpView::Run(c@),
            RunOp::Done(o) => OpView::Done(o@),
        }
    }
}

// ---------------------------------------------------------------------
// The commands the machine issues, as values of the model.
// ---------------------------------------------------------------------

pub open spec fn cmd_local(o: OrchView, tail: Seq<Seq<char>>) -> CmdView {
    CmdView { exe: o.exe, args: seq!["-C"@, o.path] + tail, cwd: None }
}

pub open spec fn cmd_remote(o: OrchView, rest: Seq<char>) -> CmdView {
    CmdView {
        exe: o.exe,
        args: ssh_args_spec(o.host, o.user, o.port, o.key, remote_cd_spec(o.path, rest)),
        cwd: None,
    }
}

/// Branch detection: symbolic reference of HEAD; the remote form falls
/// back to abbreviated-ref resolution for a detached HEAD.
pub open spec fn branch_cmd(o: OrchView) -> CmdView {
    match o.mode {
        Mode::Local => cmd_local(o, seq!["symbolic-ref"@, "--short"@, "HEAD"@]),
        Mode::Ssh => cmd_remote(
            o,
            "(git symbolic-ref --short HEAD 2>/dev/null || git rev-parse --abbrev-ref HEAD)"@,
        ),
    }
}

pub open spec fn head_cmd(o: OrchView) -> CmdView {
    match o.mode {
        Mode::Local => cmd_local(o, seq!["rev-parse"@, "--verify"@, "HEAD"@]),
        Mode::Ssh => cmd_remote(o, "git rev-parse --verify HEAD"@),
    }
}

pub open spec fn status_cmd(o: OrchView) -> CmdView {
    match o.mode {
        Mode::Local => cmd_local(o, seq!["status"@, "--porcelain"@, "--ignore-submodules"@]),
        Mode::Ssh => cmd_remote(o, "git status --porcelain --ignore-submodules"@),
    }
}

pub open spec fn stash_cmd(o: OrchView) -> CmdView {
    match o.mode {
        Mode::Local => cmd_local(o, seq!["stash"@, "--include-untracked"@]),
        Mode::Ssh => cmd_remote(o, "git stash --include-untracked"@),
    }
}

pub open spec fn add_cmd(o: OrchView) -> CmdView {
    match o.mode {
        Mode::Local => cmd_local(o, seq!["add"@, "-A"@]),
        Mode::Ssh => cmd_remote(o, "git add -A"@),
    }
}

/// The commit message a push synthesizes: the supplied one, trimmed.
pub open spec fn commit_msg(o: OrchView) -> Seq<char> {
    trim_spec(opt_seq_or_empty(o.commit_message))
}

pub open spec fn commit_cmd(o: OrchView) -> CmdView {
    match o.mode {
        Mode::Local => cmd_local(o, seq!["commit"@, "-m"@, commit_msg(o)]),
        Mode::Ssh => cmd_remote(o, "git commit -m "@ + shell_escape_spec(commit_msg(o))),
    }
}

pub open spec fn empty_commit_cmd(o: OrchView) -> CmdView {
    match o.mode {
        Mode::Local => cmd_local(o, seq!["commit"@, "--allow-empty"@, "-m"@, commit_msg(o)]),
        Mode::Ssh => cmd_remote(
            o,
            "git commit --allow-empty -m "@ + shell_escape_spec(commit_msg(o)),
        ),
    }
}

pub open spec fn fetch_cmd(o: OrchView) -> CmdView {
    match o.mode {
        Mode::Local => cmd_local(o, seq!["fetch"@, "origin"@]),
        Mode::Ssh => cmd_remote(o, "git fetch origin"@),
    }
}

pub open spec fn checkout_cmd(o: OrchView) -> CmdView {
    match o.mode {
        Mode::Local => cmd_local(o, seq!["checkout"@, o.branch]),
        Mode::Ssh => cmd_remote(o, "git checkout "@ + shell_escape_spec(o.branch)),
    }
}

pub open spec fn pull_cmd(o: OrchView) -> CmdView {
    match o.mode {
        Mode::Local => cmd_local(o, seq!["pull"@, "--ff-only"@, "origin"@, o.branch]),
        Mode::Ssh => cmd_remote(o, "git pull --ff-only origin "@ + shell_escape_spec(o.branch)),
    }
}

pub open spec fn push_cmd(o: OrchView) -> CmdView {
    match o.mode {
        Mode::Local => cmd_local(o, seq!["push"@, "origin"@, o.branch]),
        Mode::Ssh => cmd_remote(o, "git push origin "@ + shell_escape_spec(o.branch)),
    }
}

/// The merge source as supplied (the local form merges it as written;
/// only the blank test trims it).
pub open spec fn merge_from_raw(o: OrchView) -> Seq<char> {
    opt_seq_or_empty(o.merge_from)
}

/// The merge source trimmed (the remote form works with this).
pub open spec fn merge_from_trimmed(o: OrchView) -> Seq<char> {
    trim_spec(opt_seq_or_empty(o.merge_from))
}

pub open spec fn fetch_from_cmd(o: OrchView) -> CmdView {
    match o.mode {
        Mode::Local => cmd_local(o, seq!["fetch"@, "origin"@, merge_from_raw(o)]),
        Mode::Ssh => cmd_remote(
            o,
            "git fetch origin "@ + shell_escape_spec(merge_from_trimmed(o)),
        ),
    }
}

/// The reference the merge integrates: the local mode merges the local
/// branch name directly, the remote mode its remote-tracking form. The
/// asymmetry is deliberate and carried as-is.
pub open spec fn merge_cmd(o: OrchView) -> CmdView {
    match o.mode {
        Mode::Local => cmd_local(o, seq!["merge"@, "--no-ff"@, merge_from_raw(o)]),
        Mode::Ssh => cmd_remote(
            o,
            "git merge --no-ff "@ + shell_escape_spec("origin/"@ + merge_from_trimmed(o)),
        ),
    }
}

// ---------------------------------------------------------------------
// Outcomes, as values of the model.
// ---------------------------------------------------------------------

pub open spec fn fail_out(
    o: OrchView,
    steps: Seq<StepView>,
    code: Seq<char>,
    severity: Seq<char>,
    message: Seq<char>,
    detail: Option<Seq<char>>,
) -> OutcomeView {
    OutcomeView {
        ok: false,
        mode: mode_str(o.mode),
        action: action_str(o.action),
        env_key: o.env_key,
        steps,
        error: Some(ErrView { code, severity, message, detail }),
    }
}

/// The closing outcome: aggregate success is the conjunction of every
/// captured step's success flag; on failure a generic per-mode error is
/// attached and the detailed cause stays discoverable in the trace.
pub open spec fn final_out(o: OrchView, steps: Seq<StepView>) -> OutcomeView {
    let ok = all_ok(steps);
    OutcomeView {
        ok,
        mode: mode_str(o.mode),
        action: action_str(o.action),
        env_key: o.env_key,
        steps,
        error: if ok {
            None
        } else {
            Some(match o.mode {
                Mode::Local => ErrView {
                    code: "GIT-0002"@,
                    severity: "ERROR"@,
                    message: "git command failed"@,
                    detail: None,
                },
                Mode::Ssh => ErrView {
                    code: "SSH-0200"@,
                    severity: "ERROR"@,
                    message: "remote command failed"@,
                    detail: None,
                },
            })
        },
    }
}

// ---------------------------------------------------------------------
// The transition relation.
// ---------------------------------------------------------------------

pub open spec fn with_phase(o: OrchView, p: Phase) -> OrchView {
    OrchView { phase: p, ..o }
}

pub open spec fn settle(o: OrchView, out: OutcomeView) -> (OrchView, OpView) {
    (with_phase(o, Phase::Settled), OpView::Done(out))
}

/// The stash-leniency rule: a stash counts as successful when its output
/// says a working-directory snapshot was saved, even if the process
/// reported failure (tolerates benign permission warnings).
pub open spec fn stash_adjusted(s: StepView) -> StepView {
    if has_substr(s.stdout, "Saved working directory"@) {
        StepView { ok: true, ..s }
    } else {
        s
    }
}

/// After the status query is recorded and cleanliness is known: stash for
/// a dirty pull/merge; guard and stage for a dirty push; else move on.
pub open spec fn after_status(o: OrchView) -> (OrchView, OpView) {
    if o.action != Action::Push && !o.clean {
        (with_phase(o, Phase::Stash), OpView::Run(stash_cmd(o)))
    } else if o.action == Action::Push && !o.clean {
        if o.current_branch != o.branch {
            match o.mode {
                Mode::Local => settle(o, fail_out(
                    o,
                    o.steps,
                    "GIT-0103"@,
                    "ERROR"@,
                    "working tree is dirty on a different branch"@,
                    Some("current_branch="@ + o.current_branch + " target_branch="@ + o.branch),
                )),
                Mode::Ssh => settle(o, fail_out(
                    o,
                    o.steps,
                    "GIT-0104"@,
                    "ERROR"@,
                    "working tree is dirty on a non-target branch (checkout target branch first)"@,
                    Some("current="@ + o.current_branch + ", target="@ + o.branch),
                )),
            }
        } else if commit_msg(o).len() == 0 {
            match o.mode {
                Mode::Local => settle(o, fail_out(
                    o,
                    o.steps,
                    "GIT-0104"@,
                    "ERROR"@,
                    "push requires commitMessage when working tree is dirty"@,
                    None,
                )),
                Mode::Ssh => settle(o, fail_out(
                    o,
                    o.steps,
                    "GIT-0103"@,
                    "ERROR"@,
                    "commitMessage is required for push when there are uncommitted changes"@,
                    None,
                )),
            }
        } else {
            (with_phase(o, Phase::AddAll), OpView::Run(add_cmd(o)))
        }
    } else {
        enter_prefetch(o)
    }
}

/// Before the fetch: the remote mode creates the empty commit of a
/// commit-less push here; the local mode does it after checkout.
pub open spec fn enter_prefetch(o: OrchView) -> (OrchView, OpView) {
    if o.mode == Mode::Ssh && o.action == Action::Push && !o.has_commits {
        if commit_msg(o).len() == 0 {
            settle(o, fail_out(
                o,
                o.steps,
                "GIT-0107"@,
                "ERROR"@,
                "push requires commitMessage when repository has no commits"@,
                None,
            ))
        } else {
            (with_phase(o, Phase::EmptyCommitEarly), OpView::Run(empty_commit_cmd(o)))
        }
    } else {
        (with_phase(o, Phase::FetchStep), OpView::Run(fetch_cmd(o)))
    }
}

/// After checkout: the local mode creates the empty commit of a
/// commit-less push here, then the action-specific tail runs.
pub open spec fn after_checkout(o: OrchView) -> (OrchView, OpView) {
    if o.mode == Mode::Local && o.action == Action::Push && !o.has_commits {
        if commit_msg(o).len() == 0 {
            settle(o, fail_out(
                o,
                o.steps,
                "GIT-0107"@,
                "ERROR"@,
                "push requires commitMessage when repository has no commits"@,
                None,
            ))
        } else {
            (with_phase(o, Phase::EmptyCommitLate), OpView::Run(empty_commit_cmd(o)))
        }
    } else {
        enter_tail(o)
    }
}

/// The action-specific tail; a merge without a source branch fails here,
/// before any of its three commands runs.
pub open spec fn enter_tail(o: OrchView) -> (OrchView, OpView) {
    match o.action {
        Action::Pull => (with_phase(o, Phase::PullStep), OpView::Run(pull_cmd(o))),
        Action::Push => (with_phase(o, Phase::PushStep), OpView::Run(push_cmd(o))),
        Action::Merge => {
            if merge_from_trimmed(o).len() == 0 {
                let code = match o.mode {
                    Mode::Local => "CFG-0003"@,
                    Mode::Ssh => "CFG-0201"@,
                };
                settle(o, fail_out(
                    o,
                    o.steps,
                    code,
                    "ERROR"@,
                    "mergeFromBranch is required for merge"@,
                    None,
                ))
            } else {
                (with_phase(o, Phase::FetchFrom), OpView::Run(fetch_from_cmd(o)))
            }
        },
    }
}

pub open spec fn finish(o: OrchView) -> (OrchView, OpView) {
    settle(o, final_out(o, o.steps))
}

pub open spec fn rec(o: OrchView, s: StepView) -> OrchView {
    OrchView { steps: o.steps.push(s), ..o }
}

/// The whole transition relation: what the machine does with the captured
/// result of the command it was waiting on.
pub open spec fn next_spec(o: OrchView, s: StepView) -> (OrchView, OpView) {
    match o.phase {
        Phase::DetectBranch => {
            if !s.ok {
                let o2 = rec(o, s);
                let (code, msg) = match o.mode {
                    Mode::Local => ("GIT-0100"@, "failed to get current branch"@),
                    Mode::Ssh => ("SSH-0201"@, "failed to get remote branch"@),
                };
                settle(o2, fail_out(o2, o2.steps, code, "ERROR"@, msg, Some(s.stderr)))
            } else {
                let o2 = match o.mode {
                    Mode::Local => OrchView {
                        pending_branch: Some(s),
                        current_branch: trim_spec(s.stdout),
                        phase: Phase::DetectHead,
                        ..o
                    },
                    Mode::Ssh => OrchView {
                        steps: o.steps.push(s),
                        current_branch: trim_spec(s.stdout),
                        phase: Phase::DetectHead,
                        ..o
                    },
                };
                (o2, OpView::Run(head_cmd(o2)))
            }
        },
        Phase::DetectHead => {
            let steps2 = match o.pending_branch {
                Some(p) => o.steps.push(s).push(p),
                None => o.steps.push(s),
            };
            let o2 = OrchView {
                steps: steps2,
                pending_branch: None,
                has_commits: s.ok,
                phase: Phase::CheckStatus,
                ..o
            };
            (o2, OpView::Run(status_cmd(o2)))
        },
        Phase::CheckStatus => {
            match o.mode {
                Mode::Local => {
                    let o2 = rec(o, s);
                    if !s.ok {
                        settle(o2, fail_out(
                            o2,
                            o2.steps,
                            "GIT-0101"@,
                            "ERROR"@,
                            "git status failed"@,
                            Some("git status failed: "@ + s.stderr),
                        ))
                    } else {
                        after_status(OrchView { clean: trim_spec(s.stdout).len() == 0, ..o2 })
                    }
                },
                Mode::Ssh => {
                    let o2 = rec(o, s);
                    if !s.ok {
                        settle(o2, fail_out(
                            o2,
                            o2.steps,
                            "SSH-0201"@,
                            "ERROR"@,
                            "git status failed on remote"@,
                            Some(s.stderr),
                        ))
                    } else {
                        after_status(OrchView { clean: trim_spec(s.stdout).len() == 0, ..o2 })
                    }
                },
            }
        },
        Phase::Stash => enter_prefetch(rec(o, stash_adjusted(s))),
        Phase::AddAll => {
            if !s.ok {
                let o2 = rec(o, s);
                let (code, msg) = match o.mode {
                    Mode::Local => ("GIT-0105"@, "git add failed"@),
                    Mode::Ssh => ("SSH-0201"@, "git add failed on remote"@),
                };
                settle(o2, fail_out(o2, o2.steps, code, "ERROR"@, msg, Some(s.stderr)))
            } else {
                let o2 = OrchView { steps: o.steps.push(s), phase: Phase::CommitStep, ..o };
                (o2, OpView::Run(commit_cmd(o2)))
            }
        },
        Phase::CommitStep => {
            if !s.ok {
                let o2 = rec(o, s);
                let (code, msg) = match o.mode {
                    Mode::Local => ("GIT-0106"@, "git commit failed"@),
                    Mode::Ssh => ("SSH-0201"@, "git commit failed on remote"@),
                };
                settle(o2, fail_out(o2, o2.steps, code, "ERROR"@, msg, Some(s.stderr)))
            } else {
                enter_prefetch(OrchView { steps: o.steps.push(s), has_commits: true, ..o })
            }
        },
        Phase::EmptyCommitEarly => {
            if !s.ok {
                let o2 = rec(o, s);
                settle(o2, fail_out(
                    o2,
                    o2.steps,
                    "SSH-0201"@,
                    "ERROR"@,
                    "git commit --allow-empty failed on remote"@,
                    Some(s.stderr),
                ))
            } else {
                let o2 = OrchView {
                    steps: o.steps.push(s),
                    has_commits: true,
                    phase: Phase::FetchStep,
                    ..o
                };
                (o2, OpView::Run(fetch_cmd(o2)))
            }
        },
        Phase::FetchStep => {
            let o2 = OrchView { steps: o.steps.push(s), phase: Phase::CheckoutStep, ..o };
            (o2, OpView::Run(checkout_cmd(o2)))
        },
        Phase::CheckoutStep => after_checkout(rec(o, s)),
        Phase::EmptyCommitLate => {
            if !s.ok {
                let o2 = rec(o, s);
                settle(o2, fail_out(
                    o2,
                    o2.steps,
                    "GIT-0108"@,
                    "ERROR"@,
                    "git commit --allow-empty failed"@,
                    Some(s.stderr),
                ))
            } else {
                enter_tail(OrchView { steps: o.steps.push(s), has_commits: true, ..o })
            }
        },
        Phase::PullStep => finish(rec(o, s)),
        Phase::PushStep => finish(rec(o, s)),
        Phase::FetchFrom => {
            let o2 = OrchView { steps: o.steps.push(s), phase: Phase::MergeStep, ..o };
            (o2, OpView::Run(merge_cmd(o2)))
        },
        Phase::MergeStep => {
            let o2 = OrchView { steps: o.steps.push(s), phase: Phase::PushAfterMerge, ..o };
            (o2, OpView::Run(push_cmd(o2)))
        },
        Phase::PushAfterMerge => finish(rec(o, s)),
        Phase::Settled => finish(o),
    }
}

// ---------------------------------------------------------------------
// Executable command construction.
// ---------------------------------------------------------------------

fn push_all(dst: &mut Vec<String>, src: &Vec<String>)
    ensures
        final(dst).deep_view() == old(dst).deep_view() + src.deep_view(),
{
    let n = src.len();
    let mut i: usize = 0;
    while i < n
        invariant
            0 <= i <= n,
            n == src@.len(),
            dst.deep_view() =~= old(dst).deep_view() + src.deep_view().take(i as int),
        decreases n - i,
    {
        let c = src[i].clone();
        crate::model::push_string(dst, c);
        proof {
            assert(src.deep_view()[i as int] == src@[i as int]@);
            assert(dst.deep_view() =~= old(dst).deep_view() + src.deep_view().take(i + 1));
        }
        i = i + 1;
    }
    proof {
        assert(src.deep_view().take(n as int) =~= src.deep_view());
        assert(dst.deep_view() =~= old(dst).deep_view() + src.deep_view());
    }
}

impl Orchestrator {
    fn mk_local(&self, tail: &Vec<String>) -> (r: CmdSpec)
        ensures
            r@ == cmd_local(self@, tail.deep_view()),
    {
        let mut args: Vec<String> = Vec::new();
        crate::model::push_string(&mut args, String::from_str("-C"));
        crate::model::push_string(&mut args, self.path.clone());
        push_all(&mut args, tail);
        proof {
            assert(args.deep_view() =~= seq!["-C"@, self@.path] + tail.deep_view());
        }
        CmdSpec { exe: self.exe.clone(), args, cwd: None }
    }

    fn mk_remote(&self, rest: &str) -> (r: CmdSpec)
        ensures
            r@ == cmd_remote(self@, rest@),
    {
        let rc = remote_cd(self.path.as_str(), rest);
        let args = build_ssh_args(
            self.host.as_str(),
            self.user.as_str(),
            self.port,
            &self.key,
            rc,
        );
        CmdSpec { exe: self.exe.clone(), args, cwd: None }
    }

    fn cmd_for_branch(&self) -> (r: CmdSpec)
        ensures
            r@ == branch_cmd(self@),
    {
        match self.mode {
            Mode::Local => {
                let mut t: Vec<String> = Vec::new();
                crate::model::push_string(&mut t, String::from_str("symbolic-ref"));
                crate::model::push_string(&mut t, String::from_str("--short"));
                crate::model::push_string(&mut t, String::from_str("HEAD"));
                proof {
                    assert(t.deep_view() =~= seq!["symbolic-ref"@, "--short"@, "HEAD"@]);
                }
                self.mk_local(&t)
            },
            Mode::Ssh => self.mk_remote(
                "(git symbolic-ref --short HEAD 2>/dev/null || git rev-parse --abbrev-ref HEAD)",
            ),
        }
    }

    fn cmd_for_head(&self) -> (r: CmdSpec)
        ensures
            r@ == head_cmd(self@),
    {
        match self.mode {
            Mode::Local => {
                let mut t: Vec<String> = Vec::new();
                crate::model::push_string(&mut t, String::from_str("rev-parse"));
                crate::model::push_string(&mut t, String::from_str("--verify"));
                crate::model::push_string(&mut t, String::from_str("HEAD"));
                proof {
                    assert(t.deep_view() =~= seq!["rev-parse"@, "--verify"@, "HEAD"@]);
                }
                self.mk_local(&t)
            },
            Mode::Ssh => self.mk_remote("git rev-parse --verify HEAD"),
        }
    }

    fn cmd_for_status(&self) -> (r: CmdSpec)
        ensures
            r@ == status_cmd(self@),
    {
        match self.mode {
            Mode::Local => {
                let mut t: Vec<String> = Vec::new();
                crate::model::push_string(&mut t, String::from_str("status"));
                crate::model::push_string(&mut t, String::from_str("--porcelain"));
                crate::model::push_string(&mut t, String::from_str("--ignore-submodules"));
                proof {
                    assert(t.deep_view() =~= seq!["status"@, "--porcelain"@, "--ignore-submodules"@]);
                }
                self.mk_local(&t)
            },
            Mode::Ssh => self.mk_remote("git status --porcelain --ignore-submodules"),
        }
    }

    fn cmd_for_stash(&self) -> (r: CmdSpec)
        ensures
            r@ == stash_cmd(self@),
    {
        match self.mode {
            Mode::Local => {
                let mut t: Vec<String> = Vec::new();
                crate::model::push_string(&mut t, String::from_str("stash"));
                crate::model::push_string(&mut t, String::from_str("--include-untracked"));
                proof {
                    assert(t.deep_view() =~= seq!["stash"@, "--include-untracked"@]);
                }
                self.mk_local(&t)
            },
            Mode::Ssh => self.mk_remote("git stash --include-untracked"),
        }
    }

    fn cmd_for_add(&self) -> (r: CmdSpec)
        ensures
            r@ == add_cmd(self@),
    {
        match self.mode {
            Mode::Local => {
                let mut t: Vec<String> = Vec::new();
                crate::model::push_string(&mut t, String::from_str("add"));
                crate::model::push_string(&mut t, String::from_str("-A"));
                proof {
                    assert(t.deep_view() =~= seq!["add"@, "-A"@]);
                }
                self.mk_local(&t)
            },
            Mode::Ssh => self.mk_remote("git add -A"),
        }
    }

    fn the_commit_msg(&self) -> (r: String)
        ensures
            r@ == commit_msg(self@),
    {
        match &self.commit_message {
            Some(m) => trim_str(m.as_str()),
            None => {
                let e = String::new();
                trim_str(e.as_str())
            },
        }
    }

    fn cmd_for_commit(&self) -> (r: CmdSpec)
        ensures
            r@ == commit_cmd(self@),
    {
        let m = self.the_commit_msg();
        match self.mode {
            Mode::Local => {
                let mut t: Vec<String> = Vec::new();
                crate::model::push_string(&mut t, String::from_str("commit"));
                crate::model::push_string(&mut t, String::from_str("-m"));
                crate::model::push_string(&mut t, m);
                proof {
                    assert(t.deep_view() =~= seq!["commit"@, "-m"@, commit_msg(self@)]);
                }
                self.mk_local(&t)
            },
            Mode::Ssh => {
                let mut rest = String::from_str("git commit -m ");
                let q = shell_escape_posix_single(m.as_str());
                rest.append(q.as_str());
                proof {
                    assert(rest@ =~= "git commit -m "@ + shell_escape_spec(commit_msg(self@)));
                }
                self.mk_remote(rest.as_str())
            },
        }
    }

    fn cmd_for_empty_commit(&self) -> (r: CmdSpec)
        ensures
            r@ == empty_commit_cmd(self@),
    {
        let m = self.the_commit_msg();
        match self.mode {
            Mode::Local => {
                let mut t: Vec<String> = Vec::new();
                crate::model::push_string(&mut t, String::from_str("commit"));
                crate::model::push_string(&mut t, String::from_str("--allow-empty"));
                crate::model::push_string(&mut t, String::from_str("-m"));
                crate::model::push_string(&mut t, m);
                proof {
                    assert(t.deep_view() =~= seq![
                        "commit"@,
                        "--allow-empty"@,
                        "-m"@,
                        commit_msg(self@),
                    ]);
                }
                self.mk_local(&t)
            },
            Mode::Ssh => {
                let mut rest = String::from_str("git commit --allow-empty -m ");
                let q = shell_escape_posix_single(m.as_str());
                rest.append(q.as_str());
                proof {
                    assert(rest@ =~= "git commit --allow-empty -m "@ + shell_escape_spec(
                        commit_msg(self@),
                    ));
                }
                self.mk_remote(rest.as_str())
            },
        }
    }

    fn cmd_for_fetch(&self) -> (r: CmdSpec)
        ensures
            r@ == fetch_cmd(self@),
    {
        match self.mode {
            Mode::Local => {
                let mut t: Vec<String> = Vec::new();
                crate::model::push_string(&mut t, String::from_str("fetch"));
                crate::model::push_string(&mut t, String::from_str("origin"));
                proof {
                    assert(t.deep_view() =~= seq!["fetch"@, "origin"@]);
                }
                self.mk_local(&t)
            },
            Mode::Ssh => self.mk_remote("git fetch origin"),
        }
    }

    fn cmd_for_checkout(&self) -> (r: CmdSpec)
        ensures
            r@ == checkout_cmd(self@),
    {
        match self.mode {
            Mode::Local => {
                let mut t: Vec<String> = Vec::new();
                crate::model::push_string(&mut t, String::from_str("checkout"));
                crate::model::push_string(&mut t, self.branch.clone());
                proof {
                    assert(t.deep_view() =~= seq!["checkout"@, self@.branch]);
                }
                self.mk_local(&t)
            },
            Mode::Ssh => {
                let mut rest = String::from_str("git checkout ");
                let q = shell_escape_posix_single(self.branch.as_str());
                rest.append(q.as_str());
                proof {
                    assert(rest@ =~= "git checkout "@ + shell_escape_spec(self@.branch));
                }
                self.mk_remote(rest.as_str())
            },
        }
    }

    fn cmd_for_pull(&self) -> (r: CmdSpec)
        ensures
            r@ == pull_cmd(self@),
    {
        match self.mode {
            Mode::Local => {
                let mut t: Vec<String> = Vec::new();
                crate::model::push_string(&mut t, String::from_str("pull"));
                crate::model::push_string(&mut t, String::from_str("--ff-only"));
                crate::model::push_string(&mut t, String::from_str("origin"));
                crate::model::push_string(&mut t, self.branch.clone());
                proof {
                    assert(t.deep_view() =~= seq!["pull"@, "--ff-only"@, "origin"@, self@.branch]);
                }
                self.mk_local(&t)
            },
            Mode::Ssh => {
                let mut rest = String::from_str("git pull --ff-only origin ");
                let q = shell_escape_posix_single(self.branch.as_str());
                rest.append(q.as_str());
                proof {
                    assert(rest@ =~= "git pull --ff-only origin "@ + shell_escape_spec(
                        self@.branch,
                    ));
                }
                self.mk_remote(rest.as_str())
            },
        }
    }

    fn cmd_for_push(&self) -> (r: CmdSpec)
        ensures
            r@ == push_cmd(self@),
    {
        match self.mode {
            Mode::Local => {
                let mut t: Vec<String> = Vec::new();
                crate::model::push_string(&mut t, String::from_str("push"));
                crate::model::push_string(&mut t, String::from_str("origin"));
                crate::model::push_string(&mut t, self.branch.clone());
                proof {
                    assert(t.deep_view() =~= seq!["push"@, "origin"@, self@.branch]);
                }
                self.mk_local(&t)
            },
            Mode::Ssh => {
                let mut rest = String::from_str("git push origin ");
                let q = shell_escape_posix_single(self.branch.as_str());
                rest.append(q.as_str());
                proof {
                    assert(rest@ =~= "git push origin "@ + shell_escape_spec(self@.branch));
                }
                self.mk_remote(rest.as_str())
            },
        }
    }

    fn the_merge_from_raw(&self) -> (r: String)
        ensures
            r@ == merge_from_raw(self@),
    {
        match &self.merge_from {
            Some(m) => m.clone(),
            None => String::new(),
        }
    }

    fn the_merge_from_trimmed(&self) -> (r: String)
        ensures
            r@ == merge_from_trimmed(self@),
    {
        let raw = self.the_merge_from_raw();
        trim_str(raw.as_str())
    }

    fn cmd_for_fetch_from(&self) -> (r: CmdSpec)
        ensures
            r@ == fetch_from_cmd(self@),
    {
        match self.mode {
            Mode::Local => {
                let mut t: Vec<String> = Vec::new();
                crate::model::push_string(&mut t, String::from_str("fetch"));
                crate::model::push_string(&mut t, String::from_str("origin"));
                crate::model::push_string(&mut t, self.the_merge_from_raw());
                proof {
                    assert(t.deep_view() =~= seq!["fetch"@, "origin"@, merge_from_raw(self@)]);
                }
                self.mk_local(&t)
            },
            Mode::Ssh => {
                let ft = self.the_merge_from_trimmed();
                let mut rest = String::from_str("git fetch origin ");
                let q = shell_escape_posix_single(ft.as_str());
                rest.append(q.as_str());
                proof {
                    assert(rest@ =~= "git fetch origin "@ + shell_escape_spec(
                        merge_from_trimmed(self@),
                    ));
                }
                self.mk_remote(rest.as_str())
            },
        }
    }

    fn cmd_for_merge(&self) -> (r: CmdSpec)
        ensures
            r@ == merge_cmd(self@),
    {
        match self.mode {
            Mode::Local => {
                let mut t: Vec<String> = Vec::new();
                crate::model::push_string(&mut t, String::from_str("merge"));
                crate::model::push_string(&mut t, String::from_str("--no-ff"));
                crate::model::push_string(&mut t, self.the_merge_from_raw());
                proof {
                    assert(t.deep_view() =~= seq!["merge"@, "--no-ff"@, merge_from_raw(self@)]);
                }
                self.mk_local(&t)
            },
            Mode::Ssh => {
                let ft = self.the_merge_from_trimmed();
                let mut reference = String::from_str("origin/");
                reference.append(ft.as_str());
                proof {
                    assert(reference@ =~= "origin/"@ + merge_from_trimmed(self@));
                }
                let mut rest = String::from_str("git merge --no-ff ");
                let q = shell_escape_posix_single(reference.as_str());
                rest.append(q.as_str());
                proof {
                    assert(rest@ =~= "git merge --no-ff "@ + shell_escape_spec(
                        "origin/"@ + merge_from_trimmed(self@),
                    ));
                }
                self.mk_remote(rest.as_str())
            },
        }
    }

    fn mode_string(&self) -> (r: String)
        ensures
            r@ == mode_str(self@.mode),
    {
        match self.mode {
            Mode::Local => String::from_str("local"),
            Mode::Ssh => String::from_str("ssh"),
        }
    }

    fn action_string(&self) -> (r: String)
        ensures
            r@ == action_str(self@.action),
    {
        match self.action {
            Action::Pull => String::from_str("pull"),
            Action::Push => String::from_str("push"),
            Action::Merge => String::from_str("merge"),
        }
    }

    fn fail_with(&mut self, code: &str, message: &str, detail: Option<String>) -> (r: RunOp)
        ensures
            final(self)@ == with_phase(old(self)@, Phase::Settled),
            r@ == OpView::Done(fail_out(
                old(self)@,
                old(self)@.steps,
                code@,
                "ERROR"@,
                message@,
                opt_str_view(detail),
            )),
    {
        self.phase = Phase::Settled;
        let out = ActionOutcome {
            ok: false,
            mode: self.mode_string(),
            action: self.action_string(),
            env_key: self.env_key.clone(),
            steps: clone_steps(&self.steps),
            error: Some(ActionError {
                code: code.to_owned(),
                severity: String::from_str("ERROR"),
                message: message.to_owned(),
                detail,
            }),
        };
        proof {
            assert(out@ =~= fail_out(
                old(self)@,
                old(self)@.steps,
                code@,
                "ERROR"@,
                message@,
                opt_str_view(detail),
            ));
            assert(self@ =~= with_phase(old(self)@, Phase::Settled));
        }
        RunOp::Done(out)
    }

    fn finish_run(&mut self) -> (r: RunOp)
        ensures
            final(self)@ == with_phase(old(self)@, Phase::Settled),
            r@ == OpView::Done(final_out(old(self)@, old(self)@.steps)),
    {
        self.phase = Phase::Settled;
        let ok = all_steps_ok(&self.steps);
        let error = if ok {
            None
        } else {
            Some(
                match self.mode {
                    Mode::Local => ActionError {
                        code: String::from_str("GIT-0002"),
                        severity: String::from_str("ERROR"),
                        message: String::from_str("git command failed"),
                        detail: None,
                    },
                    Mode::Ssh => ActionError {
                        code: String::from_str("SSH-0200"),
                        severity: String::from_str("ERROR"),
                        message: String::from_str("remote command failed"),
                        detail: None,
                    },
                },
            )
        };
        let out = ActionOutcome {
            ok,
            mode: self.mode_string(),
            action: self.action_string(),
            env_key: self.env_key.clone(),
            steps: clone_steps(&self.steps),
            error,
        };
        proof {
            assert(out@ =~= final_out(old(self)@, old(self)@.steps));
            assert(self@ =~= with_phase(old(self)@, Phase::Settled));
        }
        RunOp::Done(out)
    }

    fn do_enter_prefetch(&mut self) -> (r: RunOp)
        ensures
            ({
                let (m2, op2) = enter_prefetch(old(self)@);
                final(self)@ == m2 && r@ == op2
            }),
    {
        if self.mode == Mode::Ssh && self.action == Action::Push && !self.has_commits {
            let m = self.the_commit_msg();
            if m.as_str().unicode_len() == 0 {
                self.fail_with(
                    "GIT-0107",
                    "push requires commitMessage when repository has no commits",
                    None,
                )
            } else {
                self.phase = Phase::EmptyCommitEarly;
                let c = self.cmd_for_empty_commit();
                proof {
                    assert(self@ =~= with_phase(old(self)@, Phase::EmptyCommitEarly));
                }
                RunOp::Run(c)
            }
        } else {
            self.phase = Phase::FetchStep;
            let c = self.cmd_for_fetch();
            proof {
                assert(self@ =~= with_phase(old(self)@, Phase::FetchStep));
            }
            RunOp::Run(c)
        }
    }

    fn do_enter_tail(&mut self) -> (r: RunOp)
        ensures
            ({
                let (m2, op2) = enter_tail(old(self)@);
                final(self)@ == m2 && r@ == op2
            }),
    {
        match self.action {
            Action::Pull => {
                self.phase = Phase::PullStep;
                let c = self.cmd_for_pull();
                proof {
                    assert(self@ =~= with_phase(old(self)@, Phase::PullStep));
                }
                RunOp::Run(c)
            },
            Action::Push => {
                self.phase = Phase::PushStep;
                let c = self.cmd_for_push();
                proof {
                    assert(self@ =~= with_phase(old(self)@, Phase::PushStep));
                }
                RunOp::Run(c)
            },
            Action::Merge => {
                let ft = self.the_merge_from_trimmed();
                if ft.as_str().unicode_len() == 0 {
                    match self.mode {
                        Mode::Local => self.fail_with(
                            "CFG-0003",
                            "mergeFromBranch is required for merge",
                            None,
                        ),
                        Mode::Ssh => self.fail_with(
                            "CFG-0201",
                            "mergeFromBranch is required for merge",
                            None,
                        ),
                    }
                } else {
                    self.phase = Phase::FetchFrom;
                    let c = self.cmd_for_fetch_from();
                    proof {
                        assert(self@ =~= with_phase(old(self)@, Phase::FetchFrom));
                    }
                    RunOp::Run(c)
                }
            },
        }
    }

    fn do_after_checkout(&mut self) -> (r: RunOp)
        ensures
            ({
                let (m2, op2) = after_checkout(old(self)@);
                final(self)@ == m2 && r@ == op2
            }),
    {
        if self.mode == Mode::Local && self.action == Action::Push && !self.has_commits {
            let m = self.the_commit_msg();
            if m.as_str().unicode_len() == 0 {
                self.fail_with(
                    "GIT-0107",
                    "push requires commitMessage when repository has no commits",
                    None,
                )
            } else {
                self.phase = Phase::EmptyCommitLate;
                let c = self.cmd_for_empty_commit();
                proof {
                    assert(self@ =~= with_phase(old(self)@, Phase::EmptyCommitLate));
                }
                RunOp::Run(c)
            }
        } else {
            self.do_enter_tail()
        }
    }

    fn do_after_status(&mut self) -> (r: RunOp)
        ensures
            ({
                let (m2, op2) = after_status(old(self)@);
                final(self)@ == m2 && r@ == op2
            }),
    {
        if self.action != Action::Push && !self.clean {
            self.phase = Phase::Stash;
            let c = self.cmd_for_stash();
            proof {
                assert(self@ =~= with_phase(old(self)@, Phase::Stash));
            }
            RunOp::Run(c)
        } else if self.action == Action::Push && !self.clean {
            if !str_eq(self.current_branch.as_str(), self.branch.as_str()) {
                match self.mode {
                    Mode::Local => {
                        let mut d = String::from_str("current_branch=");
                        d.append(self.current_branch.as_str());
                        d.append(" target_branch=");
                        d.append(self.branch.as_str());
                        proof {
                            assert(d@ =~= "current_branch="@ + self@.current_branch
                                + " target_branch="@ + self@.branch);
                        }
                        self.fail_with(
                            "GIT-0103",
                            "working tree is dirty on a different branch",
                            Some(d),
                        )
                    },
                    Mode::Ssh => {
                        let mut d = String::from_str("current=");
                        d.append(self.current_branch.as_str());
                        d.append(", target=");
                        d.append(self.branch.as_str());
                        proof {
                            assert(d@ =~= "current="@ + self@.current_branch + ", target="@
                                + self@.branch);
                        }
                        self.fail_with(
                            "GIT-0104",
                            "working tree is dirty on a non-target branch (checkout target branch first)",
                            Some(d),
                        )
                    },
                }
            } else {
                let m = self.the_commit_msg();
                if m.as_str().unicode_len() == 0 {
                    match self.mode {
                        Mode::Local => self.fail_with(
                            "GIT-0104",
                            "push requires commitMessage when working tree is dirty",
                            None,
                        ),
                        Mode::Ssh => self.fail_with(
                            "GIT-0103",
                            "commitMessage is required for push when there are uncommitted changes",
                            None,
                        ),
                    }
                } else {
                    self.phase = Phase::AddAll;
                    let c = self.cmd_for_add();
                    proof {
                        assert(self@ =~= with_phase(old(self)@, Phase::AddAll));
                    }
                    RunOp::Run(c)
                }
            }
        } else {
            self.do_enter_prefetch()
        }
    }

    /// Feed the machine the captured result of the command it was waiting
    /// on; it answers with the next command to run or the final outcome.
    /// The behaviour is exactly `next_spec`.
    pub fn run_action_step(&mut self, step: StepResult) -> (r: RunOp)
        ensures
            ({
                let (m2, op2) = next_spec(old(self)@, step@);
                final(self)@ == m2 && r@ == op2
            }),
    {
        let ghost s = step@;
        match self.phase {
            Phase::DetectBranch => {
                if !step.ok {
                    let detail = Some(step.stderr.clone());
                    push_step(&mut self.steps, step);
                    match self.mode {
                        Mode::Local => self.fail_with(
                            "GIT-0100",
                            "failed to get current branch",
                            detail,
                        ),
                        Mode::Ssh => self.fail_with(
                            "SSH-0201",
                            "failed to get remote branch",
                            detail,
                        ),
                    }
                } else {
                    self.current_branch = trim_str(step.stdout.as_str());
                    match self.mode {
                        Mode::Local => {
                            self.pending_branch = Some(step);
                        },
                        Mode::Ssh => {
                            push_step(&mut self.steps, step);
                        },
                    }
                    self.phase = Phase::DetectHead;
                    let c = self.cmd_for_head();
                    RunOp::Run(c)
                }
            },
            Phase::DetectHead => {
                self.has_commits = step.ok;
                push_step(&mut self.steps, step);
                match &self.pending_branch {
                    Some(p) => {
                        let pc = clone_step(p);
                        push_step(&mut self.steps, pc);
                        self.pending_branch = None;
                    },
                    None => {},
                }
                self.phase = Phase::CheckStatus;
                let c = self.cmd_for_status();
                RunOp::Run(c)
            },
            Phase::CheckStatus => {
                let step_ok = step.ok;
                let stdout_blank = {
                    let t = trim_str(step.stdout.as_str());
                    t.as_str().unicode_len() == 0
                };
                let stderr_copy = step.stderr.clone();
                push_step(&mut self.steps, step);
                if !step_ok {
                    match self.mode {
                        Mode::Local => {
                            let mut d = String::from_str("git status failed: ");
                            d.append(stderr_copy.as_str());
                            proof {
                                assert(d@ =~= "git status failed: "@ + s.stderr);
                            }
                            self.fail_with("GIT-0101", "git status failed", Some(d))
                        },
                        Mode::Ssh => self.fail_with(
                            "SSH-0201",
                            "git status failed on remote",
                            Some(stderr_copy),
                        ),
                    }
                } else {
                    self.clean = stdout_blank;
                    self.do_after_status()
                }
            },
            Phase::Stash => {
                let mut st = step;
                if contains_substr(st.stdout.as_str(), "Saved working directory") {
                    st.ok = true;
                }
                proof {
                    assert(st@ =~= stash_adjusted(s));
                }
                push_step(&mut self.steps, st);
                self.do_enter_prefetch()
            },
            Phase::AddAll => {
                if !step.ok {
                    let detail = Some(step.stderr.clone());
                    push_step(&mut self.steps, step);
                    match self.mode {
                        Mode::Local => self.fail_with("GIT-0105", "git add failed", detail),
                        Mode::Ssh => self.fail_with(
                            "SSH-0201",
                            "git add failed on remote",
                            detail,
                        ),
                    }
                } else {
                    push_step(&mut self.steps, step);
                    self.phase = Phase::CommitStep;
                    let c = self.cmd_for_commit();
                    RunOp::Run(c)
                }
            },
            Phase::CommitStep => {
                if !step.ok {
                    let detail = Some(step.stderr.clone());
                    push_step(&mut self.steps, step);
                    match self.mode {
                        Mode::Local => self.fail_with("GIT-0106", "git commit failed", detail),
                        Mode::Ssh => self.fail_with(
                            "SSH-0201",
                            "git commit failed on remote",
                            detail,
                        ),
                    }
                } else {
                    push_step(&mut self.steps, step);
                    self.has_commits = true;
                    self.do_enter_prefetch()
                }
            },
            Phase::EmptyCommitEarly => {
                if !step.ok {
                    let detail = Some(step.stderr.clone());
                    push_step(&mut self.steps, step);
                    self.fail_with(
                        "SSH-0201",
                        "git commit --allow-empty failed on remote",
                        detail,
                    )
                } else {
                    push_step(&mut self.steps, step);
                    self.has_commits = true;
                    self.phase = Phase::FetchStep;
                    let c = self.cmd_for_fetch();
                    RunOp::Run(c)
                }
            },
            Phase::FetchStep => {
                push_step(&mut self.steps, step);
                self.phase = Phase::CheckoutStep;
                let c = self.cmd_for_checkout();
                RunOp::Run(c)
            },
            Phase::CheckoutStep => {
                push_step(&mut self.steps, step);
                self.do_after_checkout()
            },
            Phase::EmptyCommitLate => {
                if !step.ok {
                    let detail = Some(step.stderr.clone());
                    push_step(&mut self.steps, step);
                    self.fail_with("GIT-0108", "git commit --allow-empty failed", detail)
                } else {
                    push_step(&mut self.steps, step);
                    self.has_commits = true;
                    self.do_enter_tail()
                }
            },
            Phase::PullStep => {
                push_step(&mut self.steps, step);
                self.finish_run()
            },
            Phase::PushStep => {
                push_step(&mut self.steps, step);
                self.finish_run()
            },
            Phase::FetchFrom => {
                push_step(&mut self.steps, step);
                self.phase = Phase::MergeStep;
                let c = self.cmd_for_merge();
                RunOp::Run(c)
            },
            Phase::MergeStep => {
                push_step(&mut self.steps, step);
                self.phase = Phase::PushAfterMerge;
                let c = self.cmd_for_push();
                RunOp::Run(c)
            },
            Phase::PushAfterMerge => {
                push_step(&mut self.steps, step);
                self.finish_run()
            },
            Phase::Settled => self.finish_run(),
        }
    }
}

// ---------------------------------------------------------------------
// Validation and start.
// ---------------------------------------------------------------------

/// An outcome refused during validation, before any step ran: it echoes
/// the request's own mode and action strings and has an empty trace.
pub open spec fn req_fail(
    req: ReqView,
    code: Seq<char>,
    severity: Seq<char>,
    message: Seq<char>,
    detail: Option<Seq<char>>,
) -> OutcomeView {
    OutcomeView {
        ok: false,
        mode: req.mode,
        action: req.action,
        env_key: req.env_key,
        steps: Seq::empty(),
        error: Some(ErrView { code, severity, message, detail }),
    }
}

/// Which action a request names.
pub open spec fn action_of(a: Seq<char>) -> Option<Action> {
    if a == "pull"@ {
        Some(Action::Pull)
    } else if a == "push"@ {
        Some(Action::Push)
    } else if a == "merge"@ {
        Some(Action::Merge)
    } else {
        None
    }
}

/// The git metadata marker inside a working tree.
pub open spec fn marker_path(p: Seq<char>) -> Seq<char> {
    p + "/.git"@
}

pub open spec fn init_orch(
    mode: Mode,
    action: Action,
    req: ReqView,
    exe: Seq<char>,
    path: Seq<char>,
) -> OrchView {
    OrchView {
        mode,
        action,
        env_key: req.env_key,
        branch: req.branch,
        exe,
        path,
        host: req.ssh.host,
        user: req.ssh.user,
        port: port_spec(req.ssh.port),
        key: req.ssh.key_path,
        merge_from: req.merge_from_branch,
        commit_message: req.commit_message,
        phase: Phase::DetectBranch,
        steps: Seq::empty(),
        pending_branch: None,
        current_branch: Seq::empty(),
        has_commits: false,
        clean: false,
    }
}

/// Validation and the first command. `exe` is the resolved executable of
/// the requested mode (git locally, the remote shell for ssh), or nothing
/// when resolution failed; `fs` carries the filesystem facts for the
/// local working tree and its git marker.
pub open spec fn start_spec(req: ReqView, exe: Option<Seq<char>>, fs: Seq<FsEntry>) -> (Option<
    OrchView,
>, OpView) {
    match action_of(req.action) {
        None => (
            None,
            OpView::Done(req_fail(
                req,
                "CFG-0001"@,
                "ERROR"@,
                "unknown action"@,
                Some(req.action),
            )),
        ),
        Some(action) => {
            if req.mode == "local"@ {
                match exe {
                    None => (
                        None,
                        OpView::Done(req_fail(req, "GIT-0001"@, "FATAL"@, "git not found"@, None)),
                    ),
                    Some(git) => {
                        let lp = trim_spec(req.local_path);
                        if lp.len() == 0 {
                            (
                                None,
                                OpView::Done(req_fail(
                                    req,
                                    "FS-0100"@,
                                    "ERROR"@,
                                    "localPath is required"@,
                                    None,
                                )),
                            )
                        } else if fs_kind_at(fs, lp) == FileKind::Missing {
                            (
                                None,
                                OpView::Done(req_fail(
                                    req,
                                    "FS-0101"@,
                                    "ERROR"@,
                                    "localPath does not exist"@,
                                    Some(lp),
                                )),
                            )
                        } else if fs_kind_at(fs, lp) != FileKind::Dir {
                            (
                                None,
                                OpView::Done(req_fail(
                                    req,
                                    "FS-0101"@,
                                    "ERROR"@,
                                    "localPath is not a directory"@,
                                    Some(lp),
                                )),
                            )
                        } else if fs_kind_at(fs, marker_path(lp)) == FileKind::Missing {
                            (
                                None,
                                OpView::Done(req_fail(
                                    req,
                                    "FS-0102"@,
                                    "ERROR"@,
                                    "localPath is not a git repository"@,
                                    Some(lp),
                                )),
                            )
                        } else {
                            let o = init_orch(Mode::Local, action, req, git, lp);
                            (Some(o), OpView::Run(branch_cmd(o)))
                        }
                    },
                }
            } else if req.mode == "ssh"@ {
                match exe {
                    None => (
                        None,
                        OpView::Done(req_fail(req, "SSH-0001"@, "FATAL"@, "ssh not found"@, None)),
                    ),
                    Some(sshx) => {
                        if trim_spec(req.ssh.host).len() == 0 || trim_spec(req.ssh.user).len()
                            == 0 {
                            (
                                None,
                                OpView::Done(req_fail(
                                    req,
                                    "CFG-0302"@,
                                    "ERROR"@,
                                    "ssh host/user is required"@,
                                    None,
                                )),
                            )
                        } else {
                            let rp = trim_spec(req.remote_path);
                            if rp.len() == 0 {
                                (
                                    None,
                                    OpView::Done(req_fail(
                                        req,
                                        "CFG-0303"@,
                                        "ERROR"@,
                                        "remotePath is required"@,
                                        None,
                                    )),
                                )
                            } else {
                                let o = init_orch(Mode::Ssh, action, req, sshx, rp);
                                (Some(o), OpView::Run(branch_cmd(o)))
                            }
                        }
                    },
                }
            } else {
                (
                    None,
                    OpView::Done(req_fail(
                        req,
                        "CFG-0002"@,
                        "ERROR"@,
                        "unknown mode (expected local|ssh)"@,
                        Some(req.mode),
                    )),
                )
            }
        },
    }
}

/// How a run begins: with its machine and first command, or refused with
/// an early outcome.
pub enum StartOutcome {
    Begun(Orchestrator, CmdSpec),
    Refused(ActionOutcome),
}

fn refused(
    req: &RunActionRequest,
    code: &str,
    severity: &str,
    message: &str,
    detail: Option<String>,
) -> (r: ActionOutcome)
    ensures
        r@ == req_fail(req@, code@, severity@, message@, opt_str_view(detail)),
{
    let r = ActionOutcome {
        ok: false,
        mode: req.mode.clone(),
        action: req.action.clone(),
        env_key: req.env_key.clone(),
        steps: Vec::new(),
        error: Some(ActionError {
            code: code.to_owned(),
            severity: severity.to_owned(),
            message: message.to_owned(),
            detail,
        }),
    };
    proof {
        assert(r@.steps =~= Seq::<StepView>::empty());
        assert(r@ =~= req_fail(req@, code@, severity@, message@, opt_str_view(detail)));
    }
    r
}

/// Validate a request and begin a run. The behaviour is exactly
/// `start_spec`: an unsupported action or mode, a missing executable, or
/// an invalid working-tree path is refused with its configuration error
/// and an empty trace; otherwise the machine starts by detecting the
/// current branch.
pub fn run_action_start(
    req: &RunActionRequest,
    resolved_exe: Option<String>,
    fs: &FsView,
) -> (r: StartOutcome)
    ensures
        ({
            let (m2, op2) = start_spec(req@, opt_str_view(resolved_exe), fs.entries@);
            match r {
                StartOutcome::Begun(m, c) => m2 == Some(m@) && op2 == OpView::Run(c@),
                StartOutcome::Refused(out) => m2 is None && op2 == OpView::Done(out@),
            }
        }),
{
    let action = if str_eq(req.action.as_str(), "pull") {
        Some(Action::Pull)
    } else if str_eq(req.action.as_str(), "push") {
        Some(Action::Push)
    } else if str_eq(req.action.as_str(), "merge") {
        Some(Action::Merge)
    } else {
        None
    };
    match action {
        None => StartOutcome::Refused(refused(
            req,
            "CFG-0001",
            "ERROR",
            "unknown action",
            Some(req.action.clone()),
        )),
        Some(a) => {
            if str_eq(req.mode.as_str(), "local") {
                match resolved_exe {
                    None => StartOutcome::Refused(refused(
                        req,
                        "GIT-0001",
                        "FATAL",
                        "git not found",
                        None,
                    )),
                    Some(git) => {
                        let lp = trim_str(req.local_path.as_str());
                        if lp.as_str().unicode_len() == 0 {
                            StartOutcome::Refused(refused(
                                req,
                                "FS-0100",
                                "ERROR",
                                "localPath is required",
                                None,
                            ))
                        } else {
                            let k = fs.lookup(lp.as_str());
                            if k == FileKind::Missing {
                                StartOutcome::Refused(refused(
                                    req,
                                    "FS-0101",
                                    "ERROR",
                                    "localPath does not exist",
                                    Some(lp),
                                ))
                            } else if k != FileKind::Dir {
                                StartOutcome::Refused(refused(
                                    req,
                                    "FS-0101",
                                    "ERROR",
                                    "localPath is not a directory",
                                    Some(lp),
                                ))
                            } else {
                                let mut marker = lp.clone();
                                marker.append("/.git");
                                if fs.lookup(marker.as_str()) == FileKind::Missing {
                                    StartOutcome::Refused(refused(
                                        req,
                                        "FS-0102",
                                        "ERROR",
                                        "localPath is not a git repository",
                                        Some(lp),
                                    ))
                                } else {
                                    let o = Orchestrator {
                                        mode: Mode::Local,
                                        action: a,
                                        env_key: req.env_key.clone(),
                                        branch: req.branch.clone(),
                                        exe: git,
                                        path: lp,
                                        host: req.ssh.host.clone(),
                                        user: req.ssh.user.clone(),
                                        port: match req.ssh.port {
                                            Some(p) => p,
                                            None => 22,
                                        },
                                        key: clone_opt_string(&req.ssh.key_path),
                                        merge_from: clone_opt_string(&req.merge_from_branch),
                                        commit_message: clone_opt_string(&req.commit_message),
                                        phase: Phase::DetectBranch,
                                        steps: Vec::new(),
                                        pending_branch: None,
                                        current_branch: String::new(),
                                        has_commits: false,
                                        clean: false,
                                    };
                                    let c = o.cmd_for_branch();
                                    proof {
                                        assert(o@.steps =~= Seq::<StepView>::empty());
                                        assert(o@ =~= init_orch(
                                            Mode::Local,
                                            a,
                                            req@,
                                            o@.exe,
                                            o@.path,
                                        ));
                                    }
                                    StartOutcome::Begun(o, c)
                                }
                            }
                        }
                    },
                }
            } else if str_eq(req.mode.as_str(), "ssh") {
                match resolved_exe {
                    None => StartOutcome::Refused(refused(
                        req,
                        "SSH-0001",
                        "FATAL",
                        "ssh not found",
                        None,
                    )),
                    Some(sshx) => {
                        let ht = trim_str(req.ssh.host.as_str());
                        let ut = trim_str(req.ssh.user.as_str());
                        if ht.as_str().unicode_len() == 0 || ut.as_str().unicode_len() == 0 {
                            StartOutcome::Refused(refused(
                                req,
                                "CFG-0302",
                                "ERROR",
                                "ssh host/user is required",
                                None,
                            ))
                        } else {
                            let rp = trim_str(req.remote_path.as_str());
                            if rp.as_str().unicode_len() == 0 {
                                StartOutcome::Refused(refused(
                                    req,
                                    "CFG-0303",
                                    "ERROR",
                                    "remotePath is required",
                                    None,
                                ))
                            } else {
                                let o = Orchestrator {
                                    mode: Mode::Ssh,
                                    action: a,
                                    env_key: req.env_key.clone(),
                                    branch: req.branch.clone(),
                                    exe: sshx,
                                    path: rp,
                                    host: req.ssh.host.clone(),
                                    user: req.ssh.user.clone(),
                                    port: match req.ssh.port {
                                        Some(p) => p,
                                        None => 22,
                                    },
                                    key: clone_opt_string(&req.ssh.key_path),
                                    merge_from: clone_opt_string(&req.merge_from_branch),
                                    commit_message: clone_opt_string(&req.commit_message),
                                    phase: Phase::DetectBranch,
                                    steps: Vec::new(),
                                    pending_branch: None,
                                    current_branch: String::new(),
                                    has_commits: false,
                                    clean: false,
                                };
                                let c = o.cmd_for_branch();
                                proof {
                                    assert(o@.steps =~= Seq::<StepView>::empty());
                                    assert(o@ =~= init_orch(Mode::Ssh, a, req@, o@.exe, o@.path));
                                }
                                StartOutcome::Begun(o, c)
                            }
                        }
                    },
                }
            } else {
                StartOutcome::Refused(refused(
                    req,
                    "CFG-0002",
                    "ERROR",
                    "unknown mode (expected local|ssh)",
                    Some(req.mode.clone()),
                ))
            }
        },
    }
}

// ---------------------------------------------------------------------
// Laws of the orchestrator.
// ---------------------------------------------------------------------

/// LAW: a request with an unsupported action string is refused with the
/// configuration code, and no step is executed beyond validation.
pub proof fn lemma_unknown_action_refused(req: ReqView, exe: Option<Seq<char>>, fs: Seq<FsEntry>)
    requires
        action_of(req.action) is None,
    ensures
        ({
            let (m, op) = start_spec(req, exe, fs);
            &&& m is None
            &&& op matches OpView::Done(out)
            &&& !out.ok
            &&& out.steps.len() == 0
            &&& out.error matches Some(e) && e.code == "CFG-0001"@
        }),
{
}

/// LAW: a request with a supported action but an unsupported mode string
/// is refused with the configuration code, and no step is executed beyond
/// validation.
pub proof fn lemma_unknown_mode_refused(req: ReqView, exe: Option<Seq<char>>, fs: Seq<FsEntry>)
    requires
        action_of(req.action) is Some,
        req.mode != "local"@,
        req.mode != "ssh"@,
    ensures
        ({
            let (m, op) = start_spec(req, exe, fs);
            &&& m is None
            &&& op matches OpView::Done(out)
            &&& !out.ok
            &&& out.steps.len() == 0
            &&& out.error matches Some(e) && e.code == "CFG-0002"@
        }),
{
}

/// LAW: a push with a dirty tree on a branch different from the target
/// stops right after the status step, with the dirty-on-a-different-
/// branch error; no staging or commit step is attempted (the trace ends
/// at the status step).
pub proof fn lemma_dirty_push_wrong_branch_stops(o: OrchView, s: StepView)
    requires
        o.phase == Phase::CheckStatus,
        o.action == Action::Push,
        s.ok,
        trim_spec(s.stdout).len() != 0,
        o.current_branch != o.branch,
    ensures
        ({
            let (m2, op2) = next_spec(o, s);
            &&& m2.phase == Phase::Settled
            &&& op2 matches OpView::Done(out)
            &&& !out.ok
            &&& out.steps == o.steps.push(s)
            &&& out.error matches Some(e) && e.code == (match o.mode {
                Mode::Local => "GIT-0103"@,
                Mode::Ssh => "GIT-0104"@,
            })
        }),
{
}

/// LAW: a push with a dirty tree on the target branch but no commit
/// message stops right after the status step, with the message-required
/// error; no staging step is attempted.
pub proof fn lemma_dirty_push_no_message_stops(o: OrchView, s: StepView)
    requires
        o.phase == Phase::CheckStatus,
        o.action == Action::Push,
        s.ok,
        trim_spec(s.stdout).len() != 0,
        o.current_branch == o.branch,
        trim_spec(opt_seq_or_empty(o.commit_message)).len() == 0,
    ensures
        ({
            let (m2, op2) = next_spec(o, s);
            &&& m2.phase == Phase::Settled
            &&& op2 matches OpView::Done(out)
            &&& !out.ok
            &&& out.steps == o.steps.push(s)
            &&& out.error matches Some(e) && e.code == (match o.mode {
                Mode::Local => "GIT-0104"@,
                Mode::Ssh => "GIT-0103"@,
            })
        }),
{
}

/// LAW: the aggregate success flag of a completed run is the conjunction
/// of every captured step's success flag, the closing step included.
pub proof fn lemma_aggregate_is_conjunction(o: OrchView, s: StepView)
    requires
        o.phase == Phase::PullStep || o.phase == Phase::PushStep || o.phase
            == Phase::PushAfterMerge,
    ensures
        ({
            let (m2, op2) = next_spec(o, s);
            &&& op2 matches OpView::Done(out)
            &&& out.steps == o.steps.push(s)
            &&& out.ok == all_ok(out.steps)
            &&& out.ok <==> (out.error is None)
        }),
{
}

/// LAW: a failed checkout does not stop a pull. The failed step is
/// recorded, and the fast-forward-only pull is still attempted.
pub proof fn lemma_checkout_failure_continues(o: OrchView, s: StepView)
    requires
        o.phase == Phase::CheckoutStep,
        o.action == Action::Pull,
        !s.ok,
    ensures
        ({
            let (m2, op2) = next_spec(o, s);
            &&& m2.phase == Phase::PullStep
            &&& m2.steps == o.steps.push(s)
            &&& op2 == OpView::Run(pull_cmd(m2))
        }),
{
}

/// LAW: a failed fetch does not stop the run. The failed step is
/// recorded, and the checkout of the target branch is still attempted as
/// the next command.
pub proof fn lemma_fetch_failure_continues(o: OrchView, s: StepView)
    requires
        o.phase == Phase::FetchStep,
        !s.ok,
    ensures
        ({
            let (m2, op2) = next_spec(o, s);
            &&& m2.phase == Phase::CheckoutStep
            &&& m2.steps == o.steps.push(s)
            &&& op2 == OpView::Run(checkout_cmd(m2))
        }),
{
}

} // verus!
