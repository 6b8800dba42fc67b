//! The data the planner works over: executed-step records, aggregate
//! outcomes, error descriptors, requests, and a snapshot of filesystem
//! facts the caller supplies for validation.

use vstd::prelude::*;

verus! {

/// What one executed command produced.
pub struct StepResult {
    pub cmd: String,
    pub cwd: Option<String>,
    pub ok: bool,
    pub exit_code: i32,
    pub stdout: String,
    pub stderr: String,
}

/// Mathematical image of a `StepResult`.
#[verifier::ext_equal]
pub ghost struct StepView {
    pub cmd: Seq<char>,
    pub cwd: Option<Seq<char>>,
    pub ok: bool,
    pub exit_code: int,
    pub stdout: Seq<char>,
    pub stderr: Seq<char>,
}

pub open spec fn opt_str_view(o: Option<String>) -> Option<Seq<char>> {
    match o {
        Some(s) => Some(s@),
        None => None,
    }
}

impl View for StepResult {
    type V = StepView;

    open spec fn view(&self) -> StepView {
        StepView {
            cmd: self.cmd@,
            cwd: opt_str_view(self.cwd),
            ok: self.ok,
            exit_code: self.exit_code as int,
            stdout: self.stdout@,
            stderr: self.stderr@,
        }
    }
}

impl DeepView for StepResult {
    type V = StepView;

    open spec fn deep_view(&self) -> StepView {
        self.view()
    }
}

/// A stable error descriptor: category-prefixed code, severity, message,
/// optional free-text detail.
pub struct ActionError {
    pub code: String,
    pub severity: String,
    pub message: String,
    pub detail: Option<String>,
}

#[verifier::ext_equal]
pub ghost struct ErrView {
    pub code: Seq<char>,
    pub severity: Seq<char>,
    pub message: Seq<char>,
    pub detail: Option<Seq<char>>,
}

impl View for ActionError {
    type V = ErrView;

    open spec fn view(&self) -> ErrView {
        ErrView {
            code: self.code@,
            severity: self.severity@,
            message: self.message@,
            detail: opt_str_view(self.detail),
        }
    }
}

/// The aggregate result of one orchestration run.
pub struct ActionOutcome {
    pub ok: bool,
    pub mode: String,
    pub action: String,
    pub env_key: String,
    pub steps: Vec<StepResult>,
    pub error: Option<ActionError>,
}

#[verifier::ext_equal]
pub ghost struct OutcomeView {
    pub ok: bool,
    pub mode: Seq<char>,
    pub action: Seq<char>,
    pub env_key: Seq<char>,
    pub steps: Seq<StepView>,
    pub error: Option<ErrView>,
}

pub open spec fn opt_err_view(o: Option<ActionError>) -> Option<ErrView> {
    match o {
        Some(e) => Some(e@),
        None => None,
    }
}

impl View for ActionOutcome {
    type V = OutcomeView;

    open spec fn view(&self) -> OutcomeView {
        OutcomeView {
            ok: self.ok,
            mode: self.mode@,
            action: self.action@,
            env_key: self.env_key@,
            steps: self.steps.deep_view(),
            error: opt_err_view(self.error),
        }
    }
}

/// Connection settings for the remote transport.
pub struct SshConfig {
    pub host: String,
    pub user: String,
    pub port: Option<u16>,
    pub key_path: Option<String>,
}

#[verifier::ext_equal]
pub ghost struct SshCfgView {
    pub host: Seq<char>,
    pub user: Seq<char>,
    pub port: Option<u16>,
    pub key_path: Option<Seq<char>>,
}

impl View for SshConfig {
    type V = SshCfgView;

    open spec fn view(&self) -> SshCfgView {
        SshCfgView {
            host: self.host@,
            user: self.user@,
            port: self.port,
            key_path: opt_str_view(self.key_path),
        }
    }
}

/// One requested orchestration run.
pub struct RunActionRequest {
    pub mode: String,
    pub env_key: String,
    pub action: String,
    pub local_path: String,
    pub remote_path: String,
    pub branch: String,
    pub git_path: String,
    pub ssh_path: String,
    pub ssh: SshConfig,
    pub merge_from_branch: Option<String>,
    pub commit_message: Option<String>,
}

#[verifier::ext_equal]
pub ghost struct ReqView {
    pub mode: Seq<char>,
    pub env_key: Seq<char>,
    pub action: Seq<char>,
    pub local_path: Seq<char>,
    pub remote_path: Seq<char>,
    pub branch: Seq<char>,
    pub git_path: Seq<char>,
    pub ssh_path: Seq<char>,
    pub ssh: SshCfgView,
    pub merge_from_branch: Option<Seq<char>>,
    pub commit_message: Option<Seq<char>>,
}

impl View for RunActionRequest {
    type V = ReqView;

    open spec fn view(&self) -> ReqView {
        ReqView {
            mode: self.mode@,
            env_key: self.env_key@,
            action: self.action@,
            local_path: self.local_path@,
            remote_path: self.remote_path@,
            branch: self.branch@,
            git_path: self.git_path@,
            ssh_path: self.ssh_path@,
            ssh: self.ssh@,
            merge_from_branch: opt_str_view(self.merge_from_branch),
            commit_message: opt_str_view(self.commit_message),
        }
    }
}

/// What a path names on the filesystem.
#[derive(Clone, Copy, PartialEq, Eq, Structural, Debug)]
pub enum FileKind {
    File,
    Dir,
    Missing,
}

/// One filesystem fact the caller looked up.
pub struct FsEntry {
    pub path: String,
    pub kind: FileKind,
}

/// A snapshot of filesystem facts, supplied by the caller for the paths
/// the planner's validation reads. Lookup takes the first matching entry;
/// a path without an entry counts as missing.
pub struct FsView {
    pub entries: Vec<FsEntry>,
}

pub open spec fn fs_kind_at(entries: Seq<FsEntry>, p: Seq<char>) -> FileKind
    decreases entries.len(),
{
    if entries.len() == 0 {
        FileKind::Missing
    } else if entries[0].path@ == p {
        entries[0].kind
    } else {
        fs_kind_at(entries.drop_first(), p)
    }
}

impl FsView {
    /// What the snapshot says `p` is.
    pub open spec fn kind_of(&self, p: Seq<char>) -> FileKind {
        fs_kind_at(self.entries@, p)
    }

    /// Look up a path in the snapshot.
    pub fn lookup(&self, p: &str) -> (r: FileKind)
        ensures
            r == self.kind_of(p@),
    {
        let n = self.entries.len();
        proof {
            assert(self.entries@.skip(0) =~= self.entries@);
        }
        let mut i: usize = 0;
        while i < n
            invariant
                0 <= i <= n,
                n == self.entries@.len(),
                fs_kind_at(self.entries@, p@) == fs_kind_at(self.entries@.skip(i as int), p@),
            decreases n - i,
        {
            let e = &self.entries[i];
            if crate::text::str_eq(e.path.as_str(), p) {
                proof {
                    assert(self.entries@.skip(i as int)[0] == self.entries@[i as int]);
                }
                return e.kind;
            }
            proof {
                assert(self.entries@.skip(i as int)[0] == self.entries@[i as int]);
                assert(self.entries@.skip(i as int).drop_first() =~= self.entries@.skip(i + 1));
            }
            i = i + 1;
        }
        proof {
            assert(self.entries@.skip(n as int) =~= Seq::<FsEntry>::empty());
        }
        FileKind::Missing
    }
}

pub open spec fn opt_seq_or_empty(o: Option<Seq<char>>) -> Seq<char> {
    match o {
        Some(s) => s,
        None => Seq::empty(),
    }
}

/// Append one step to a trace.
pub fn push_step(v: &mut Vec<StepResult>, s: StepResult)
    ensures
        final(v).deep_view() == old(v).deep_view().push(s@),
{
    let ghost pre = v@;
    v.push(s);
    proof {
        assert forall|k: int| 0 <= k < v.deep_view().len() implies v.deep_view()[k] == pre.map(
            |i: int, x: StepResult| x.deep_view(),
        ).push(s@)[k] by {
            if k < pre.len() {
                assert(v@[k] == pre[k]);
            } else {
                assert(v@[k] == s);
            }
        }
        assert(old(v).deep_view() =~= pre.map(|i: int, x: StepResult| x.deep_view()));
        assert(v.deep_view() =~= old(v).deep_view().push(s@));
    }
}

/// Append one string to a list, tracking its image.
pub fn push_string(v: &mut Vec<String>, s: String)
    ensures
        final(v).deep_view() == old(v).deep_view().push(s@),
{
    let ghost pre = v@;
    v.push(s);
    proof {
        assert forall|k: int| 0 <= k < v.deep_view().len() implies v.deep_view()[k] == pre.map(
            |i: int, x: String| x@,
        ).push(v@[pre.len() as int]@)[k] by {
            if k < pre.len() {
                assert(v@[k] == pre[k]);
            }
        }
        assert(old(v).deep_view() =~= pre.map(|i: int, x: String| x@));
        assert(v.deep_view() =~= old(v).deep_view().push(v@[pre.len() as int]@));
    }
}

/// Every step in the trace succeeded.
pub open spec fn all_ok(steps: Seq<StepView>) -> bool {
    forall|i: int| 0 <= i < steps.len() ==> steps[i].ok
}

/// Compute the aggregate success flag of a trace.
pub fn all_steps_ok(v: &Vec<StepResult>) -> (r: bool)
    ensures
        r == all_ok(v.deep_view()),
{
    let n = v.len();
    let mut i: usize = 0;
    while i < n
        invariant
            0 <= i <= n,
            n == v@.len(),
            forall|k: int| 0 <= k < i ==> v.deep_view()[k].ok,
        decreases n - i,
    {
        if !v[i].ok {
            proof {
                assert(v.deep_view()[i as int] == v@[i as int]@);
                assert(!v.deep_view()[i as int].ok);
            }
            return false;
        }
        i = i + 1;
    }
    true
}

/// A failed synthetic step: a command that could not be launched.
pub fn step_error(cmd: String, stderr: String) -> (r: StepResult)
    ensures
        r@ == (StepView {
            cmd: cmd@,
            cwd: None,
            ok: false,
            exit_code: -1,
            stdout: Seq::empty(),
            stderr: stderr@,
        }),
{
    let r = StepResult {
        cmd,
        cwd: None,
        ok: false,
        exit_code: -1,
        stdout: String::new(),
        stderr,
    };
    proof {
        assert(r@ =~= StepView {
            cmd: r.cmd@,
            cwd: None,
            ok: false,
            exit_code: -1,
            stdout: Seq::empty(),
            stderr: r.stderr@,
        });
    }
    r
}

/// Copy a step record; the copy has the same image.
pub fn clone_step(s: &StepResult) -> (r: StepResult)
    ensures
        r@ == s@,
{
    let r = StepResult {
        cmd: s.cmd.clone(),
        cwd: clone_opt_string(&s.cwd),
        ok: s.ok,
        exit_code: s.exit_code,
        stdout: s.stdout.clone(),
        stderr: s.stderr.clone(),
    };
    proof {
        assert(r@ =~= s@);
    }
    r
}

/// Copy an optional string; the copy has the same image.
pub fn clone_opt_string(o: &Option<String>) -> (r: Option<String>)
    ensures
        opt_str_view(r) == opt_str_view(*o),
{
    match o {
        Some(s) => Some(s.clone()),
        None => None,
    }
}

/// Copy an ordered trace of steps; the copy has the same image.
pub fn clone_steps(v: &Vec<StepResult>) -> (r: Vec<StepResult>)
    ensures
        r.deep_view() == v.deep_view(),
{
    let n = v.len();
    let mut r: Vec<StepResult> = Vec::new();
    let mut i: usize = 0;
    while i < n
        invariant
            0 <= i <= n,
            n == v@.len(),
            r@.len() == i,
            r.deep_view() =~= v.deep_view().take(i as int),
        decreases n - i,
    {
        let ghost pre = r@;
        let c = clone_step(&v[i]);
        r.push(c);
        proof {
            assert(r@ == pre.push(c));
            assert forall|k: int| 0 <= k < i + 1 implies r.deep_view()[k] == v.deep_view().take(
                i + 1,
            )[k] by {
                if k < i {
                    assert(r@[k] == pre[k]);
                    assert(r.deep_view()[k] == pre[k].deep_view());
                } else {
                    assert(r@[k] == c);
                    assert(c@ == v@[k]@);
                }
            }
            assert(r.deep_view() =~= v.deep_view().take(i + 1));
        }
        i = i + 1;
    }
    proof {
        assert(v.deep_view().take(n as int) =~= v.deep_view());
    }
    r
}

} // verus!
