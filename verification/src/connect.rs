//! The remote connectivity probe: a two-phase handshake. First a
//! liveness echo with a sentinel string, then remote git discovery — a
//! short fallback list of conventional install paths — followed by a
//! version query against the resolved path. Readiness requires both
//! phases to succeed.

use vstd::prelude::*;
use vstd::string::*;
use crate::commands::{port_spec, ssh_args_spec, ssh_run, CmdSpec, CmdView};
use crate::model::{opt_str_view, SshCfgView, SshConfig, StepResult, StepView};
use crate::probes::{stderr_or_stdout, pick_stderr_or_stdout, ToolCheck, ToolCheckView};
use crate::quote::{shell_escape_posix_single, shell_escape_spec};
use crate::text::{first_line, first_line_spec, has_substr, contains_substr, trim_spec, trim_str};

verus! {

/// Which probe the handshake is waiting on.
#[derive(Clone, Copy, PartialEq, Eq, Structural, Debug)]
pub enum ConnectPhase {
    /// Awaiting the liveness echo.
    AwaitPing,
    /// Awaiting the remote git discovery.
    AwaitFind,
    /// Awaiting the version query against the discovered path.
    AwaitVersion,
    /// The probe has produced its result.
    SettledConnect,
}

/// The probe's state between two commands.
pub struct ConnectFlow {
    pub ssh_exe: String,
    pub cfg: SshConfig,
    pub git_path: String,
    pub phase: ConnectPhase,
}

/// Mathematical image of the probe's state.
#[verifier::ext_equal]
pub ghost struct ConnectView {
    pub ssh_exe: Seq<char>,
    pub cfg: SshCfgView,
    pub git_path: Seq<char>,
    pub phase: ConnectPhase,
}

impl View for ConnectFlow {
    type V = ConnectView;

    open spec fn view(&self) -> ConnectView {
        ConnectView {
            ssh_exe: self.ssh_exe@,
            cfg: self.cfg@,
            git_path: self.git_path@,
            phase: self.phase,
        }
    }
}

/// The probe's overall result: readiness, transport liveness alone, the
/// surfaced error, and the remote git check.
pub struct SshConnectWire {
    pub ok: bool,
    pub ssh_ok: bool,
    pub stderr: Option<String>,
    pub remote_git: ToolCheck,
}

#[verifier::ext_equal]
pub ghost struct WireView {
    pub ok: bool,
    pub ssh_ok: bool,
    pub stderr: Option<Seq<char>>,
    pub remote_git: ToolCheckView,
}

impl View for SshConnectWire {
    type V = WireView;

    open spec fn view(&self) -> WireView {
        WireView {
            ok: self.ok,
            ssh_ok: self.ssh_ok,
            stderr: opt_str_view(self.stderr),
            remote_git: self.remote_git@,
        }
    }
}

/// What the probe is told to do next.
pub enum ConnectOp {
    RunConnect(CmdSpec),
    DoneConnect(SshConnectWire),
}

#[verifier::ext_equal]
pub ghost enum ConnectOpView {
    RunConnect(CmdView),
    DoneConnect(WireView),
}

impl View for ConnectOp {
    type V = ConnectOpView;

    open spec fn view(&self) -> ConnectOpView {
        match self {
            ConnectOp::RunConnect(c) => ConnectOpView::RunConnect(c@),
            ConnectOp::DoneConnect(w) => ConnectOpView::DoneConnect(w@),
        }
    }
}

// ---------------------------------------------------------------------
// The model.
// ---------------------------------------------------------------------

/// The placeholder check reported when remote git was never probed.
pub open spec fn git_unchecked() -> ToolCheckView {
    ToolCheckView {
        found: false,
        path: None,
        version: None,
        ok: false,
        error: Some("remote git not checked"@),
    }
}

pub open spec fn conn_cmd(v: ConnectView, remote: Seq<char>) -> CmdView {
    CmdView {
        exe: v.ssh_exe,
        args: ssh_args_spec(
            v.cfg.host,
            v.cfg.user,
            port_spec(v.cfg.port),
            v.cfg.key_path,
            remote,
        ),
        cwd: None,
    }
}

/// The liveness echo.
pub open spec fn ping_remote() -> Seq<char> {
    "echo GITSHLC_SSH_OK"@
}

/// The discovery script: command resolution first, then the conventional
/// install paths, else an empty line.
pub open spec fn find_script() -> Seq<char> {
    "if command -v git >/dev/null 2>&1; then command -v git; elif [ -x /usr/bin/git ]; then echo /usr/bin/git; elif [ -x /usr/local/bin/git ]; then echo /usr/local/bin/git; elif [ -x /bin/git ]; then echo /bin/git; else echo; fi"@
}

pub open spec fn find_remote() -> Seq<char> {
    "sh -c "@ + shell_escape_spec(find_script())
}

pub open spec fn version_remote(path: Seq<char>) -> Seq<char> {
    shell_escape_spec(path) + " --version"@
}

pub open spec fn conn_with_phase(v: ConnectView, p: ConnectPhase) -> ConnectView {
    ConnectView { phase: p, ..v }
}

pub open spec fn wire_not_ready(stderr: Option<Seq<char>>) -> WireView {
    WireView { ok: false, ssh_ok: false, stderr, remote_git: git_unchecked() }
}

pub open spec fn wire_git_failed(tc: ToolCheckView) -> WireView {
    WireView { ok: false, ssh_ok: true, stderr: tc.error, remote_git: tc }
}

/// Validation and the first command of a probe.
pub open spec fn connect_start_spec(ssh: Option<Seq<char>>, cfg: SshCfgView) -> (Option<
    ConnectView,
>, ConnectOpView) {
    match ssh {
        None => (
            None,
            ConnectOpView::DoneConnect(wire_not_ready(Some("ssh not found. preflight required"@))),
        ),
        Some(sshx) => {
            if trim_spec(cfg.host).len() == 0 || trim_spec(cfg.user).len() == 0 {
                (None, ConnectOpView::DoneConnect(wire_not_ready(Some("host/user is required"@))))
            } else {
                let v = ConnectView {
                    ssh_exe: sshx,
                    cfg,
                    git_path: Seq::empty(),
                    phase: ConnectPhase::AwaitPing,
                };
                (Some(v), ConnectOpView::RunConnect(conn_cmd(v, ping_remote())))
            }
        },
    }
}

/// The probe's transition relation.
pub open spec fn connect_next_spec(v: ConnectView, s: StepView) -> (ConnectView, ConnectOpView) {
    match v.phase {
        ConnectPhase::AwaitPing => {
            let ssh_ok = s.ok && has_substr(s.stdout, "GITSHLC_SSH_OK"@);
            if !ssh_ok {
                (
                    conn_with_phase(v, ConnectPhase::SettledConnect),
                    ConnectOpView::DoneConnect(wire_not_ready(Some(stderr_or_stdout(
                        s.stderr,
                        s.stdout,
                    )))),
                )
            } else {
                let v2 = conn_with_phase(v, ConnectPhase::AwaitFind);
                (v2, ConnectOpView::RunConnect(conn_cmd(v2, find_remote())))
            }
        },
        ConnectPhase::AwaitFind => {
            if !s.ok {
                let tc = ToolCheckView {
                    found: false,
                    path: None,
                    version: None,
                    ok: false,
                    error: Some(stderr_or_stdout(s.stderr, s.stdout)),
                };
                (
                    conn_with_phase(v, ConnectPhase::SettledConnect),
                    ConnectOpView::DoneConnect(wire_git_failed(tc)),
                )
            } else {
                let path = trim_spec(first_line_spec(s.stdout));
                if path.len() == 0 {
                    let tc = ToolCheckView {
                        found: false,
                        path: None,
                        version: None,
                        ok: false,
                        error: Some("git not found on remote (PATH or standard locations)"@),
                    };
                    (
                        conn_with_phase(v, ConnectPhase::SettledConnect),
                        ConnectOpView::DoneConnect(wire_git_failed(tc)),
                    )
                } else {
                    let v2 = ConnectView {
                        git_path: path,
                        phase: ConnectPhase::AwaitVersion,
                        ..v
                    };
                    (v2, ConnectOpView::RunConnect(conn_cmd(v2, version_remote(path))))
                }
            }
        },
        ConnectPhase::AwaitVersion => {
            if !s.ok {
                let tc = ToolCheckView {
                    found: true,
                    path: Some(v.git_path),
                    version: None,
                    ok: false,
                    error: Some(stderr_or_stdout(s.stderr, s.stdout)),
                };
                (
                    conn_with_phase(v, ConnectPhase::SettledConnect),
                    ConnectOpView::DoneConnect(wire_git_failed(tc)),
                )
            } else {
                let tc = ToolCheckView {
                    found: true,
                    path: Some(v.git_path),
                    version: Some(trim_spec(s.stdout)),
                    ok: true,
                    error: None,
                };
                (
                    conn_with_phase(v, ConnectPhase::SettledConnect),
                    ConnectOpView::DoneConnect(WireView {
                        ok: true,
                        ssh_ok: true,
                        stderr: None,
                        remote_git: tc,
                    }),
                )
            }
        },
        ConnectPhase::SettledConnect => (
            v,
            ConnectOpView::DoneConnect(wire_not_ready(None)),
        ),
    }
}

// ---------------------------------------------------------------------
// The executable machine.
// ---------------------------------------------------------------------

fn git_unchecked_tool() -> (r: ToolCheck)
    ensures
        r@ == git_unchecked(),
{
    let r = ToolCheck {
        found: false,
        path: None,
        version: None,
        ok: false,
        error: Some(String::from_str("remote git not checked")),
    };
    proof {
        assert(r@ =~= git_unchecked());
    }
    r
}

fn wire_down(stderr: Option<String>) -> (r: SshConnectWire)
    ensures
        r@ == wire_not_ready(opt_str_view(stderr)),
{
    let r = SshConnectWire { ok: false, ssh_ok: false, stderr, remote_git: git_unchecked_tool() };
    proof {
        assert(r@ =~= wire_not_ready(opt_str_view(r.stderr)));
    }
    r
}

/// How a probe begins.
pub enum ConnectStart {
    BegunConnect(ConnectFlow, CmdSpec),
    RefusedConnect(SshConnectWire),
}

/// Validate and begin a connectivity probe. The behaviour is exactly
/// `connect_start_spec`.
pub fn ssh_connect_start(ssh_exe: Option<String>, cfg: SshConfig) -> (r: ConnectStart)
    ensures
        ({
            let (v2, op2) = connect_start_spec(opt_str_view(ssh_exe), cfg@);
            match r {
                ConnectStart::BegunConnect(m, c) => v2 == Some(m@) && op2
                    == ConnectOpView::RunConnect(c@),
                ConnectStart::RefusedConnect(w) => v2 is None && op2
                    == ConnectOpView::DoneConnect(w@),
            }
        }),
{
    let sshx = match ssh_exe {
        Some(s) => s,
        None => {
            return ConnectStart::RefusedConnect(wire_down(Some(String::from_str(
                "ssh not found. preflight required",
            ))));
        },
    };
    let ht = trim_str(cfg.host.as_str());
    let ut = trim_str(cfg.user.as_str());
    if ht.as_str().unicode_len() == 0 || ut.as_str().unicode_len() == 0 {
        return ConnectStart::RefusedConnect(wire_down(Some(String::from_str(
            "host/user is required",
        ))));
    }
    let c = ssh_run(sshx.as_str(), &cfg, "echo GITSHLC_SSH_OK");
    let flow = ConnectFlow {
        ssh_exe: sshx,
        cfg,
        git_path: String::new(),
        phase: ConnectPhase::AwaitPing,
    };
    proof {
        assert(c@ =~= conn_cmd(flow@, ping_remote()));
    }
    ConnectStart::BegunConnect(flow, c)
}

/// The remote git discovery decision: given the captured result of the
/// discovery script, either the path to query a version from, or the
/// finished (failed) check.
pub enum GitFind {
    RunVersionQuery(String),
    GitFindFailed(ToolCheck),
}

/// Interpret the discovery step of remote git detection: a failed
/// transport or an empty discovery output means not found; otherwise the
/// first line is the path to verify with a version query.
pub fn ssh_detect_remote_git(find: &StepResult) -> (r: GitFind)
    ensures
        !find@.ok ==> (r matches GitFind::GitFindFailed(tc) && tc@ == (ToolCheckView {
            found: false,
            path: None,
            version: None,
            ok: false,
            error: Some(stderr_or_stdout(find@.stderr, find@.stdout)),
        })),
        find@.ok && trim_spec(first_line_spec(find@.stdout)).len() == 0 ==> (r
            matches GitFind::GitFindFailed(tc) && tc@ == (ToolCheckView {
            found: false,
            path: None,
            version: None,
            ok: false,
            error: Some("git not found on remote (PATH or standard locations)"@),
        })),
        find@.ok && trim_spec(first_line_spec(find@.stdout)).len() != 0 ==> (r
            matches GitFind::RunVersionQuery(p) && p@ == trim_spec(first_line_spec(find@.stdout))),
{
    if !find.ok {
        let tc = ToolCheck {
            found: false,
            path: None,
            version: None,
            ok: false,
            error: Some(pick_stderr_or_stdout(find)),
        };
        return GitFind::GitFindFailed(tc);
    }
    let fl = first_line(find.stdout.as_str());
    let path = trim_str(fl.as_str());
    if path.as_str().unicode_len() == 0 {
        let tc = ToolCheck {
            found: false,
            path: None,
            version: None,
            ok: false,
            error: Some(String::from_str("git not found on remote (PATH or standard locations)")),
        };
        GitFind::GitFindFailed(tc)
    } else {
        GitFind::RunVersionQuery(path)
    }
}

impl ConnectFlow {
    /// Feed the probe the captured result of the command it was waiting
    /// on. The behaviour is exactly `connect_next_spec`.
    pub fn ssh_connect_step(&mut self, step: StepResult) -> (r: ConnectOp)
        ensures
            ({
                let (v2, op2) = connect_next_spec(old(self)@, step@);
                final(self)@ == v2 && r@ == op2
            }),
    {
        match self.phase {
            ConnectPhase::AwaitPing => {
                let ssh_ok = step.ok && contains_substr(
                    step.stdout.as_str(),
                    "GITSHLC_SSH_OK",
                );
                if !ssh_ok {
                    let msg = pick_stderr_or_stdout(&step);
                    self.phase = ConnectPhase::SettledConnect;
                    ConnectOp::DoneConnect(wire_down(Some(msg)))
                } else {
                    self.phase = ConnectPhase::AwaitFind;
                    let script = shell_escape_posix_single(
                        "if command -v git >/dev/null 2>&1; then command -v git; elif [ -x /usr/bin/git ]; then echo /usr/bin/git; elif [ -x /usr/local/bin/git ]; then echo /usr/local/bin/git; elif [ -x /bin/git ]; then echo /bin/git; else echo; fi",
                    );
                    let mut remote = String::from_str("sh -c ");
                    remote.append(script.as_str());
                    proof {
                        assert(remote@ =~= find_remote());
                    }
                    let c = ssh_run(self.ssh_exe.as_str(), &self.cfg, remote.as_str());
                    proof {
                        assert(c@ =~= conn_cmd(self@, find_remote()));
                    }
                    ConnectOp::RunConnect(c)
                }
            },
            ConnectPhase::AwaitFind => {
                match ssh_detect_remote_git(&step) {
                    GitFind::GitFindFailed(tc) => {
                        self.phase = ConnectPhase::SettledConnect;
                        let stderr = crate::model::clone_opt_string(&tc.error);
                        let w = SshConnectWire { ok: false, ssh_ok: true, stderr, remote_git: tc };
                        proof {
                            assert(w@ =~= wire_git_failed(w.remote_git@));
                        }
                        ConnectOp::DoneConnect(w)
                    },
                    GitFind::RunVersionQuery(path) => {
                        self.git_path = path;
                        self.phase = ConnectPhase::AwaitVersion;
                        let q = shell_escape_posix_single(self.git_path.as_str());
                        let mut remote = q;
                        remote.append(" --version");
                        proof {
                            assert(remote@ =~= version_remote(self@.git_path));
                        }
                        let c = ssh_run(self.ssh_exe.as_str(), &self.cfg, remote.as_str());
                        proof {
                            assert(c@ =~= conn_cmd(self@, version_remote(self@.git_path)));
                        }
                        ConnectOp::RunConnect(c)
                    },
                }
            },
            ConnectPhase::AwaitVersion => {
                self.phase = ConnectPhase::SettledConnect;
                if !step.ok {
                    let tc = ToolCheck {
                        found: true,
                        path: Some(self.git_path.clone()),
                        version: None,
                        ok: false,
                        error: Some(pick_stderr_or_stdout(&step)),
                    };
                    let stderr = crate::model::clone_opt_string(&tc.error);
                    let w = SshConnectWire { ok: false, ssh_ok: true, stderr, remote_git: tc };
                    proof {
                        assert(w@ =~= wire_git_failed(w.remote_git@));
                    }
                    ConnectOp::DoneConnect(w)
                } else {
                    let tc = ToolCheck {
                        found: true,
                        path: Some(self.git_path.clone()),
                        version: Some(trim_str(step.stdout.as_str())),
                        ok: true,
                        error: None,
                    };
                    let w = SshConnectWire { ok: true, ssh_ok: true, stderr: None, remote_git: tc };
                    ConnectOp::DoneConnect(w)
                }
            },
            ConnectPhase::SettledConnect => ConnectOp::DoneConnect(wire_down(None)),
        }
    }
}

} // verus!
