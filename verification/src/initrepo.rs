//! First-time local repository setup: an independent, idempotent state
//! machine. It ensures the directory exists, skips with an informational
//! note when the git marker is already present, and otherwise runs
//! repository initialization, points HEAD at the default branch through a
//! symbolic reference, and configures the origin remote when a URL was
//! supplied.

use vstd::prelude::*;
use vstd::string::*;
use crate::commands::{CmdSpec, CmdView};
use crate::model::{
    all_ok, all_steps_ok, clone_steps, fs_kind_at, push_step, step_error, ActionError,
    ActionOutcome, ErrView, FileKind, FsEntry, FsView, OutcomeView, StepResult, StepView,
};
use crate::text::{lines_spec, split_lines, str_eq, trim_spec, trim_str};

verus! {

/// Which event the initializer is waiting on.
#[derive(Clone, Copy, PartialEq, Eq, Structural, Debug)]
pub enum InitPhase {
    /// Awaiting the recursive directory creation.
    AwaitMkdir,
    /// Awaiting `init`.
    AwaitInit,
    /// Awaiting the symbolic-reference update of HEAD.
    AwaitSymref,
    /// Awaiting the remote list used to decide between adding and
    /// repointing origin.
    AwaitRemoteList,
    /// Awaiting the origin add / set-url.
    AwaitRemoteSet,
    /// The run has produced its outcome.
    SettledInit,
}

/// The initializer's state between two events.
pub struct InitFlow {
    pub git: String,
    pub path: String,
    pub branch: String,
    pub url: Option<String>,
    pub phase: InitPhase,
    pub steps: Vec<StepResult>,
}

/// Mathematical image of the initializer's state.
#[verifier::ext_equal]
pub ghost struct InitView {
    pub git: Seq<char>,
    pub path: Seq<char>,
    pub branch: Seq<char>,
    pub url: Option<Seq<char>>,
    pub phase: InitPhase,
    pub steps: Seq<StepView>,
}

impl View for InitFlow {
    type V = InitView;

    open spec fn view(&self) -> InitView {
        InitView {
            git: self.git@,
            path: self.path@,
            branch: self.branch@,
            url: crate::model::opt_str_view(self.url),
            phase: self.phase,
            steps: self.steps.deep_view(),
        }
    }
}

/// What the caller is told to do next.
pub enum InitOp {
    /// Create this directory recursively and report how it went.
    MkDir(String),
    /// Run this command and feed the captured result back in.
    Exec(CmdSpec),
    /// The run is over; this is its outcome.
    Done(ActionOutcome),
}

#[verifier::ext_equal]
pub ghost enum InitOpView {
    MkDir(Seq<char>),
    Exec(CmdView),
    Done(OutcomeView),
}

impl View for InitOp {
    type V = InitOpView;

    open spec fn view(&self) -> InitOpView {
        match self {
            InitOp::MkDir(p) => InitOpView::MkDir(p@),
            InitOp::Exec(c) => InitOpView::Exec(c@),
            InitOp::Done(o) => InitOpView::Done(o@),
        }
    }
}

/// What the caller reports back.
pub enum InitEvent {
    /// The directory was created.
    MkDirOk,
    /// Creating the directory failed, with this error text.
    MkDirErr(String),
    /// The captured result of the command the machine asked for.
    Step(StepResult),
}

#[verifier::ext_equal]
pub ghost enum InitEventView {
    MkDirOk,
    MkDirErr(Seq<char>),
    Step(StepView),
}

impl View for InitEvent {
    type V = InitEventView;

    open spec fn view(&self) -> InitEventView {
        match self {
            InitEvent::MkDirOk => InitEventView::MkDirOk,
            InitEvent::MkDirErr(e) => InitEventView::MkDirErr(e@),
            InitEvent::Step(s) => InitEventView::Step(s@),
        }
    }
}

// ---------------------------------------------------------------------
// The model.
// ---------------------------------------------------------------------

pub open spec fn init_out(steps: Seq<StepView>, ok: bool, error: Option<ErrView>) -> OutcomeView {
    OutcomeView {
        ok,
        mode: "local"@,
        action: "init"@,
        env_key: "init"@,
        steps,
        error,
    }
}

pub open spec fn init_err(
    code: Seq<char>,
    severity: Seq<char>,
    message: Seq<char>,
) -> Option<ErrView> {
    Some(ErrView { code, severity, message, detail: None })
}

pub open spec fn mkdir_label(p: Seq<char>) -> Seq<char> {
    "mkdir -p "@ + p
}

pub open spec fn skip_label(p: Seq<char>) -> Seq<char> {
    "[skip] already initialized: "@ + p
}

/// The synthetic step recorded for a created directory.
pub open spec fn mkdir_ok_step(p: Seq<char>) -> StepView {
    StepView {
        cmd: mkdir_label(p),
        cwd: None,
        ok: true,
        exit_code: 0,
        stdout: Seq::empty(),
        stderr: Seq::empty(),
    }
}

/// The synthetic step recorded when the path is already a repository.
pub open spec fn skip_step(p: Seq<char>) -> StepView {
    StepView {
        cmd: skip_label(p),
        cwd: Some(p),
        ok: true,
        exit_code: 0,
        stdout: Seq::empty(),
        stderr: Seq::empty(),
    }
}

/// The already-initialized outcome: success with an informational error
/// and exactly the one skip step.
pub open spec fn already_initialized_out(p: Seq<char>) -> OutcomeView {
    init_out(
        seq![skip_step(p)],
        true,
        init_err("GIT-0403"@, "INFO"@, ".git already exists (already initialized)"@),
    )
}

pub open spec fn init_cmd(v: InitView, tail: Seq<Seq<char>>) -> CmdView {
    CmdView { exe: v.git, args: tail, cwd: Some(v.path) }
}

pub open spec fn symref_cmd(v: InitView) -> CmdView {
    init_cmd(v, seq!["symbolic-ref"@, "HEAD"@, "refs/heads/"@ + v.branch])
}

pub open spec fn remote_list_cmd(v: InitView) -> CmdView {
    init_cmd(v, seq!["remote"@])
}

/// Does the remote list name origin? Decides between add and set-url.
pub open spec fn has_origin_line(out: Seq<char>) -> bool {
    exists|i: int|
        0 <= i < lines_spec(out).len() && trim_spec(lines_spec(out)[i]) == "origin"@
}

pub open spec fn remote_set_cmd(v: InitView, has_origin: bool) -> CmdView {
    if has_origin {
        init_cmd(
            v,
            seq!["remote"@, "set-url"@, "origin"@, crate::model::opt_seq_or_empty(v.url)],
        )
    } else {
        init_cmd(v, seq!["remote"@, "add"@, "origin"@, crate::model::opt_seq_or_empty(v.url)])
    }
}

pub open spec fn init_with_phase(v: InitView, p: InitPhase) -> InitView {
    InitView { phase: p, ..v }
}

/// After `init` (and the symbolic-reference step, when a branch name was
/// given): configure origin when a URL was supplied, else close.
pub open spec fn init_enter_remote(v: InitView) -> (InitView, InitOpView) {
    match v.url {
        Some(_) => (
            init_with_phase(v, InitPhase::AwaitRemoteList),
            InitOpView::Exec(remote_list_cmd(v)),
        ),
        None => init_finalize(v),
    }
}

/// The closing outcome: success iff every recorded step succeeded.
pub open spec fn init_finalize(v: InitView) -> (InitView, InitOpView) {
    let ok = all_ok(v.steps);
    (
        init_with_phase(v, InitPhase::SettledInit),
        InitOpView::Done(init_out(
            v.steps,
            ok,
            if ok {
                None
            } else {
                init_err("GIT-0499"@, "ERROR"@, "init failed (see steps)"@)
            },
        )),
    )
}

/// After `init` succeeds to run: point HEAD at the branch unless the
/// branch name is blank.
pub open spec fn init_after_init(v: InitView) -> (InitView, InitOpView) {
    if v.branch.len() != 0 {
        (init_with_phase(v, InitPhase::AwaitSymref), InitOpView::Exec(symref_cmd(v)))
    } else {
        init_enter_remote(v)
    }
}

/// The initializer's transition relation.
pub open spec fn init_next_spec(v: InitView, ev: InitEventView) -> (InitView, InitOpView) {
    match v.phase {
        InitPhase::AwaitMkdir => {
            match ev {
                InitEventView::MkDirOk => {
                    let v2 = InitView { steps: v.steps.push(mkdir_ok_step(v.path)), ..v };
                    (
                        init_with_phase(v2, InitPhase::AwaitInit),
                        InitOpView::Exec(init_cmd(v2, seq!["init"@])),
                    )
                },
                InitEventView::MkDirErr(e) => {
                    let v2 = InitView {
                        steps: v.steps.push(StepView {
                            cmd: mkdir_label(v.path),
                            cwd: None,
                            ok: false,
                            exit_code: -1,
                            stdout: Seq::empty(),
                            stderr: e,
                        }),
                        phase: InitPhase::SettledInit,
                        ..v
                    };
                    (
                        v2,
                        InitOpView::Done(init_out(
                            v2.steps,
                            false,
                            init_err("GIT-0402"@, "ERROR"@, "failed to create directory"@),
                        )),
                    )
                },
                InitEventView::Step(s) => {
                    let v2 = InitView { steps: v.steps.push(s), ..v };
                    (
                        init_with_phase(v2, InitPhase::AwaitInit),
                        InitOpView::Exec(init_cmd(v2, seq!["init"@])),
                    )
                },
            }
        },
        InitPhase::AwaitInit => {
            match ev {
                InitEventView::Step(s) => init_after_init(InitView { steps: v.steps.push(s), ..v }),
                _ => init_after_init(v),
            }
        },
        InitPhase::AwaitSymref => {
            match ev {
                InitEventView::Step(s) => init_enter_remote(
                    InitView { steps: v.steps.push(s), ..v },
                ),
                _ => init_enter_remote(v),
            }
        },
        InitPhase::AwaitRemoteList => {
            match ev {
                InitEventView::Step(s) => {
                    let has_origin = s.ok && has_origin_line(s.stdout);
                    let v2 = InitView {
                        steps: v.steps.push(s),
                        phase: InitPhase::AwaitRemoteSet,
                        ..v
                    };
                    (v2, InitOpView::Exec(remote_set_cmd(v2, has_origin)))
                },
                _ => init_finalize(v),
            }
        },
        InitPhase::AwaitRemoteSet => {
            match ev {
                InitEventView::Step(s) => init_finalize(InitView { steps: v.steps.push(s), ..v }),
                _ => init_finalize(v),
            }
        },
        InitPhase::SettledInit => init_finalize(v),
    }
}

/// Validation and the first operation of an initializer run.
pub open spec fn init_start_spec(
    git: Option<Seq<char>>,
    local_path: Seq<char>,
    repo_url: Option<Seq<char>>,
    default_branch: Option<Seq<char>>,
    fs: Seq<FsEntry>,
) -> (Option<InitView>, InitOpView) {
    match git {
        None => (
            None,
            InitOpView::Done(init_out(
                Seq::empty(),
                false,
                Some(ErrView {
                    code: "GIT-0001"@,
                    severity: "FATAL"@,
                    message: "git not found. Run preflight and set gitPath if needed."@,
                    detail: None,
                }),
            )),
        ),
        Some(g) => {
            let lp = trim_spec(local_path);
            if lp.len() == 0 {
                (
                    None,
                    InitOpView::Done(init_out(
                        Seq::empty(),
                        false,
                        init_err("GIT-0401"@, "ERROR"@, "localPath is required"@),
                    )),
                )
            } else {
                let v = InitView {
                    git: g,
                    path: lp,
                    branch: trim_spec(
                        match default_branch {
                            Some(b) => b,
                            None => "main"@,
                        },
                    ),
                    url: match repo_url {
                        Some(u) => if trim_spec(u).len() != 0 {
                            Some(trim_spec(u))
                        } else {
                            None
                        },
                        None => None,
                    },
                    phase: InitPhase::AwaitMkdir,
                    steps: Seq::empty(),
                };
                if fs_kind_at(fs, lp) == FileKind::Missing {
                    (Some(v), InitOpView::MkDir(lp))
                } else if fs_kind_at(fs, crate::action::marker_path(lp)) != FileKind::Missing {
                    (
                        None,
                        InitOpView::Done(already_initialized_out(lp)),
                    )
                } else {
                    let v2 = init_with_phase(v, InitPhase::AwaitInit);
                    (Some(v2), InitOpView::Exec(init_cmd(v2, seq!["init"@])))
                }
            }
        },
    }
}

/// LAW: an already-initialized path (git metadata present) yields
/// success with severity INFO and exactly one synthetic skip step.
pub proof fn lemma_already_initialized(
    git: Seq<char>,
    local_path: Seq<char>,
    repo_url: Option<Seq<char>>,
    default_branch: Option<Seq<char>>,
    fs: Seq<FsEntry>,
)
    requires
        trim_spec(local_path).len() != 0,
        fs_kind_at(fs, trim_spec(local_path)) != FileKind::Missing,
        fs_kind_at(fs, crate::action::marker_path(trim_spec(local_path))) != FileKind::Missing,
    ensures
        ({
            let (m, op) = init_start_spec(Some(git), local_path, repo_url, default_branch, fs);
            &&& m is None
            &&& op matches InitOpView::Done(out)
            &&& out.ok
            &&& out.steps.len() == 1
            &&& out.steps[0] == skip_step(trim_spec(local_path))
            &&& out.error matches Some(e) && e.severity == "INFO"@ && e.code == "GIT-0403"@
        }),
{
}

// ---------------------------------------------------------------------
// The executable machine.
// ---------------------------------------------------------------------

/// How an initializer run begins.
pub enum InitStart {
    BegunInit(InitFlow, InitOp),
    RefusedInit(ActionOutcome),
}

fn init_outcome(steps: Vec<StepResult>, ok: bool, error: Option<ActionError>) -> (r: ActionOutcome)
    ensures
        r@ == init_out(steps.deep_view(), ok, crate::model::opt_err_view(error)),
{
    let r = ActionOutcome {
        ok,
        mode: String::from_str("local"),
        action: String::from_str("init"),
        env_key: String::from_str("init"),
        steps,
        error,
    };
    proof {
        assert(r@ =~= init_out(r.steps.deep_view(), ok, crate::model::opt_err_view(r.error)));
    }
    r
}

fn init_error(code: &str, severity: &str, message: &str) -> (r: Option<ActionError>)
    ensures
        crate::model::opt_err_view(r) == Some(ErrView {
            code: code@,
            severity: severity@,
            message: message@,
            detail: None,
        }),
{
    Some(ActionError {
        code: code.to_owned(),
        severity: severity.to_owned(),
        message: message.to_owned(),
        detail: None,
    })
}

impl InitFlow {
    fn mk_cmd(&self, tail: Vec<String>) -> (r: CmdSpec)
        ensures
            r@ == init_cmd(self@, tail.deep_view()),
    {
        CmdSpec { exe: self.git.clone(), args: tail, cwd: Some(self.path.clone()) }
    }

    fn cmd_init(&self) -> (r: CmdSpec)
        ensures
            r@ == init_cmd(self@, seq!["init"@]),
    {
        let mut t: Vec<String> = Vec::new();
        t.push(String::from_str("init"));
        proof {
            assert(t.deep_view() =~= seq!["init"@]);
        }
        self.mk_cmd(t)
    }

    fn cmd_symref(&self) -> (r: CmdSpec)
        ensures
            r@ == symref_cmd(self@),
    {
        let mut refname = String::from_str("refs/heads/");
        refname.append(self.branch.as_str());
        let mut t: Vec<String> = Vec::new();
        t.push(String::from_str("symbolic-ref"));
        t.push(String::from_str("HEAD"));
        t.push(refname);
        proof {
            assert(t.deep_view() =~= seq!["symbolic-ref"@, "HEAD"@, "refs/heads/"@ + self@.branch]);
        }
        self.mk_cmd(t)
    }

    fn cmd_remote_list(&self) -> (r: CmdSpec)
        ensures
            r@ == remote_list_cmd(self@),
    {
        let mut t: Vec<String> = Vec::new();
        t.push(String::from_str("remote"));
        proof {
            assert(t.deep_view() =~= seq!["remote"@]);
        }
        self.mk_cmd(t)
    }

    fn cmd_remote_set(&self, has_origin: bool) -> (r: CmdSpec)
        ensures
            r@ == remote_set_cmd(self@, has_origin),
    {
        let url = match &self.url {
            Some(u) => u.clone(),
            None => String::new(),
        };
        let mut t: Vec<String> = Vec::new();
        t.push(String::from_str("remote"));
        if has_origin {
            t.push(String::from_str("set-url"));
        } else {
            t.push(String::from_str("add"));
        }
        t.push(String::from_str("origin"));
        t.push(url);
        proof {
            if has_origin {
                assert(t.deep_view() =~= seq![
                    "remote"@,
                    "set-url"@,
                    "origin"@,
                    crate::model::opt_seq_or_empty(self@.url),
                ]);
            } else {
                assert(t.deep_view() =~= seq![
                    "remote"@,
                    "add"@,
                    "origin"@,
                    crate::model::opt_seq_or_empty(self@.url),
                ]);
            }
        }
        self.mk_cmd(t)
    }

    fn do_finalize(&mut self) -> (r: InitOp)
        ensures
            ({
                let (v2, op2) = init_finalize(old(self)@);
                final(self)@ == v2 && r@ == op2
            }),
    {
        self.phase = InitPhase::SettledInit;
        let ok = all_steps_ok(&self.steps);
        let error = if ok {
            None
        } else {
            init_error("GIT-0499", "ERROR", "init failed (see steps)")
        };
        let out = init_outcome(clone_steps(&self.steps), ok, error);
        proof {
            assert(self@ =~= init_with_phase(old(self)@, InitPhase::SettledInit));
        }
        InitOp::Done(out)
    }

    fn do_enter_remote(&mut self) -> (r: InitOp)
        ensures
            ({
                let (v2, op2) = init_enter_remote(old(self)@);
                final(self)@ == v2 && r@ == op2
            }),
    {
        let has_url = match &self.url {
            Some(_) => true,
            None => false,
        };
        if has_url {
            self.phase = InitPhase::AwaitRemoteList;
            let c = self.cmd_remote_list();
            proof {
                assert(self@ =~= init_with_phase(old(self)@, InitPhase::AwaitRemoteList));
            }
            InitOp::Exec(c)
        } else {
            self.do_finalize()
        }
    }

    fn do_after_init(&mut self) -> (r: InitOp)
        ensures
            ({
                let (v2, op2) = init_after_init(old(self)@);
                final(self)@ == v2 && r@ == op2
            }),
    {
        if self.branch.as_str().unicode_len() != 0 {
            self.phase = InitPhase::AwaitSymref;
            let c = self.cmd_symref();
            proof {
                assert(self@ =~= init_with_phase(old(self)@, InitPhase::AwaitSymref));
            }
            InitOp::Exec(c)
        } else {
            self.do_enter_remote()
        }
    }

    /// Feed the machine the result of the last operation; it answers with
    /// the next operation. The behaviour is exactly `init_next_spec`.
    pub fn init_local_repo_step(&mut self, ev: InitEvent) -> (r: InitOp)
        ensures
            ({
                let (v2, op2) = init_next_spec(old(self)@, ev@);
                final(self)@ == v2 && r@ == op2
            }),
    {
        match self.phase {
            InitPhase::AwaitMkdir => {
                match ev {
                    InitEvent::MkDirOk => {
                        let mut label = String::from_str("mkdir -p ");
                        label.append(self.path.as_str());
                        let st = StepResult {
                            cmd: label,
                            cwd: None,
                            ok: true,
                            exit_code: 0,
                            stdout: String::new(),
                            stderr: String::new(),
                        };
                        proof {
                            assert(st@ =~= mkdir_ok_step(self@.path));
                        }
                        push_step(&mut self.steps, st);
                        self.phase = InitPhase::AwaitInit;
                        let c = self.cmd_init();
                        InitOp::Exec(c)
                    },
                    InitEvent::MkDirErr(e) => {
                        let mut label = String::from_str("mkdir -p ");
                        label.append(self.path.as_str());
                        let st = step_error(label, e);
                        push_step(&mut self.steps, st);
                        self.phase = InitPhase::SettledInit;
                        let error = init_error("GIT-0402", "ERROR", "failed to create directory");
                        let out = init_outcome(clone_steps(&self.steps), false, error);
                        InitOp::Done(out)
                    },
                    InitEvent::Step(s) => {
                        push_step(&mut self.steps, s);
                        self.phase = InitPhase::AwaitInit;
                        let c = self.cmd_init();
                        InitOp::Exec(c)
                    },
                }
            },
            InitPhase::AwaitInit => {
                match ev {
                    InitEvent::Step(s) => {
                        push_step(&mut self.steps, s);
                        self.do_after_init()
                    },
                    _ => self.do_after_init(),
                }
            },
            InitPhase::AwaitSymref => {
                match ev {
                    InitEvent::Step(s) => {
                        push_step(&mut self.steps, s);
                        self.do_enter_remote()
                    },
                    _ => self.do_enter_remote(),
                }
            },
            InitPhase::AwaitRemoteList => {
                match ev {
                    InitEvent::Step(s) => {
                        let has_origin = s.ok && stdout_names_origin(s.stdout.as_str());
                        push_step(&mut self.steps, s);
                        self.phase = InitPhase::AwaitRemoteSet;
                        let c = self.cmd_remote_set(has_origin);
                        InitOp::Exec(c)
                    },
                    _ => self.do_finalize(),
                }
            },
            InitPhase::AwaitRemoteSet => {
                match ev {
                    InitEvent::Step(s) => {
                        push_step(&mut self.steps, s);
                        self.do_finalize()
                    },
                    _ => self.do_finalize(),
                }
            },
            InitPhase::SettledInit => self.do_finalize(),
        }
    }
}

/// Does some line of the remote list, trimmed, read exactly `origin`?
pub fn stdout_names_origin(out: &str) -> (r: bool)
    ensures
        r == has_origin_line(out@),
{
    let lines = split_lines(out);
    let n = lines.len();
    let mut i: usize = 0;
    while i < n
        invariant
            0 <= i <= n,
            n == lines@.len(),
            lines.deep_view() == lines_spec(out@),
            forall|k: int| 0 <= k < i ==> trim_spec(lines_spec(out@)[k]) != "origin"@,
        decreases n - i,
    {
        let t = trim_str(lines[i].as_str());
        if str_eq(t.as_str(), "origin") {
            proof {
                assert(lines.deep_view()[i as int] == lines@[i as int]@);
                assert(trim_spec(lines_spec(out@)[i as int]) == "origin"@);
            }
            return true;
        }
        proof {
            assert(lines.deep_view()[i as int] == lines@[i as int]@);
        }
        i = i + 1;
    }
    false
}

/// Validate and begin an initializer run. The behaviour is exactly
/// `init_start_spec`.
pub fn init_local_repo_start(
    git: Option<String>,
    local_path: &str,
    repo_url: Option<String>,
    default_branch: Option<String>,
    fs: &FsView,
) -> (r: InitStart)
    ensures
        ({
            let (v2, op2) = init_start_spec(
                crate::model::opt_str_view(git),
                local_path@,
                crate::model::opt_str_view(repo_url),
                crate::model::opt_str_view(default_branch),
                fs.entries@,
            );
            match r {
                InitStart::BegunInit(m, op) => v2 == Some(m@) && op@ == op2,
                InitStart::RefusedInit(out) => v2 is None && op2 == InitOpView::Done(out@),
            }
        }),
{
    let git = match git {
        Some(g) => g,
        None => {
            let error = init_error(
                "GIT-0001",
                "FATAL",
                "git not found. Run preflight and set gitPath if needed.",
            );
            let empty_steps: Vec<StepResult> = Vec::new();
            proof {
                assert(empty_steps.deep_view() =~= Seq::<StepView>::empty());
            }
            let out = init_outcome(empty_steps, false, error);
            return InitStart::RefusedInit(out);
        },
    };
    let lp = trim_str(local_path);
    if lp.as_str().unicode_len() == 0 {
        let error = init_error("GIT-0401", "ERROR", "localPath is required");
        let empty_steps: Vec<StepResult> = Vec::new();
        proof {
            assert(empty_steps.deep_view() =~= Seq::<StepView>::empty());
        }
        let out = init_outcome(empty_steps, false, error);
        return InitStart::RefusedInit(out);
    }
    let branch = match default_branch {
        Some(b) => trim_str(b.as_str()),
        None => trim_str("main"),
    };
    let url = match repo_url {
        Some(u) => {
            let ut = trim_str(u.as_str());
            if ut.as_str().unicode_len() != 0 {
                Some(ut)
            } else {
                None
            }
        },
        None => None,
    };
    let k = fs.lookup(lp.as_str());
    if k == FileKind::Missing {
        let path_copy = lp.clone();
        let flow = InitFlow {
            git,
            path: lp,
            branch,
            url,
            phase: InitPhase::AwaitMkdir,
            steps: Vec::new(),
        };
        proof {
            assert(flow@.steps =~= Seq::<StepView>::empty());
        }
        return InitStart::BegunInit(flow, InitOp::MkDir(path_copy));
    }
    let mut marker = lp.clone();
    marker.append("/.git");
    if fs.lookup(marker.as_str()) != FileKind::Missing {
        let mut label = String::from_str("[skip] already initialized: ");
        label.append(lp.as_str());
        let st = StepResult {
            cmd: label,
            cwd: Some(lp.clone()),
            ok: true,
            exit_code: 0,
            stdout: String::new(),
            stderr: String::new(),
        };
        proof {
            assert(st@ =~= skip_step(lp@));
        }
        let mut steps: Vec<StepResult> = Vec::new();
        push_step(&mut steps, st);
        let error = init_error("GIT-0403", "INFO", ".git already exists (already initialized)");
        let out = init_outcome(steps, true, error);
        proof {
            assert(out@.steps =~= seq![skip_step(lp@)]);
            assert(out@ =~= already_initialized_out(lp@));
        }
        return InitStart::RefusedInit(out);
    }
    let flow = InitFlow {
        git,
        path: lp,
        branch,
        url,
        phase: InitPhase::AwaitInit,
        steps: Vec::new(),
    };
    proof {
        assert(flow@.steps =~= Seq::<StepView>::empty());
    }
    let c = flow.cmd_init();
    InitStart::BegunInit(flow, InitOp::Exec(c))
}

} // verus!
