use gitshlc::connect::{ssh_connect_start, ConnectOp, ConnectStart};
use gitshlc::model::{SshConfig, StepResult};

fn cfg() -> SshConfig {
    SshConfig {
        host: "example.com".to_string(),
        user: "deploy".to_string(),
        port: None,
        key_path: None,
    }
}

fn step(ok: bool, stdout: &str, stderr: &str) -> StepResult {
    StepResult {
        cmd: String::new(),
        cwd: None,
        ok,
        exit_code: if ok { 0 } else { 255 },
        stdout: stdout.to_string(),
        stderr: stderr.to_string(),
    }
}

fn remote_cmd(c: &gitshlc::commands::CmdSpec) -> &str {
    c.args.last().unwrap().as_str()
}

#[test]
fn missing_ssh_is_refused() {
    match ssh_connect_start(None, cfg()) {
        ConnectStart::RefusedConnect(w) => {
            assert!(!w.ok && !w.ssh_ok);
            assert_eq!(w.stderr.as_deref(), Some("ssh not found. preflight required"));
            assert!(!w.remote_git.found);
            assert_eq!(w.remote_git.error.as_deref(), Some("remote git not checked"));
        },
        _ => panic!(),
    }
}

#[test]
fn blank_host_or_user_is_refused() {
    let mut c = cfg();
    c.user = " ".to_string();
    match ssh_connect_start(Some("ssh".to_string()), c) {
        ConnectStart::RefusedConnect(w) => {
            assert_eq!(w.stderr.as_deref(), Some("host/user is required"));
        },
        _ => panic!(),
    }
}

#[test]
fn full_handshake_reports_ready() {
    let (mut m, c) = match ssh_connect_start(Some("/usr/bin/ssh".to_string()), cfg()) {
        ConnectStart::BegunConnect(m, c) => (m, c),
        _ => panic!(),
    };
    assert_eq!(remote_cmd(&c), "echo GITSHLC_SSH_OK");
    // liveness echo comes back with the sentinel
    let op = m.ssh_connect_step(step(true, "GITSHLC_SSH_OK\n", ""));
    let c = match op { ConnectOp::RunConnect(c) => c, _ => panic!() };
    let find = remote_cmd(&c);
    assert!(find.starts_with("sh -c 'if command -v git >/dev/null 2>&1; then command -v git;"));
    assert!(find.contains("/usr/local/bin/git"));
    // discovery resolves a path
    let op = m.ssh_connect_step(step(true, "/usr/bin/git\n", ""));
    let c = match op { ConnectOp::RunConnect(c) => c, _ => panic!() };
    assert_eq!(remote_cmd(&c), "'/usr/bin/git' --version");
    // version query succeeds
    let w = match m.ssh_connect_step(step(true, "git version 2.39.0\n", "")) {
        ConnectOp::DoneConnect(w) => w,
        _ => panic!(),
    };
    assert!(w.ok && w.ssh_ok);
    assert!(w.stderr.is_none());
    assert!(w.remote_git.found && w.remote_git.ok);
    assert_eq!(w.remote_git.path.as_deref(), Some("/usr/bin/git"));
    assert_eq!(w.remote_git.version.as_deref(), Some("git version 2.39.0"));
}

#[test]
fn echo_without_sentinel_is_not_live() {
    let (mut m, _) = match ssh_connect_start(Some("ssh".to_string()), cfg()) {
        ConnectStart::BegunConnect(m, c) => (m, c),
        _ => panic!(),
    };
    let w = match m.ssh_connect_step(step(true, "banner text only", "")) {
        ConnectOp::DoneConnect(w) => w,
        _ => panic!("must stop at the first phase"),
    };
    assert!(!w.ok && !w.ssh_ok);
    assert_eq!(w.stderr.as_deref(), Some("banner text only"));
}

#[test]
fn failed_echo_surfaces_stderr() {
    let (mut m, _) = match ssh_connect_start(Some("ssh".to_string()), cfg()) {
        ConnectStart::BegunConnect(m, c) => (m, c),
        _ => panic!(),
    };
    let w = match m.ssh_connect_step(step(false, "", "Permission denied (publickey).")) {
        ConnectOp::DoneConnect(w) => w,
        _ => panic!(),
    };
    assert!(!w.ssh_ok);
    assert_eq!(w.stderr.as_deref(), Some("Permission denied (publickey)."));
}

#[test]
fn empty_discovery_output_means_git_not_found() {
    let (mut m, _) = match ssh_connect_start(Some("ssh".to_string()), cfg()) {
        ConnectStart::BegunConnect(m, c) => (m, c),
        _ => panic!(),
    };
    m.ssh_connect_step(step(true, "GITSHLC_SSH_OK", ""));
    let w = match m.ssh_connect_step(step(true, "\n", "")) {
        ConnectOp::DoneConnect(w) => w,
        _ => panic!(),
    };
    assert!(!w.ok && w.ssh_ok);
    assert!(!w.remote_git.found);
    assert_eq!(
        w.remote_git.error.as_deref(),
        Some("git not found on remote (PATH or standard locations)"),
    );
}

#[test]
fn failed_version_query_reports_found_but_not_ok() {
    let (mut m, _) = match ssh_connect_start(Some("ssh".to_string()), cfg()) {
        ConnectStart::BegunConnect(m, c) => (m, c),
        _ => panic!(),
    };
    m.ssh_connect_step(step(true, "GITSHLC_SSH_OK", ""));
    m.ssh_connect_step(step(true, "/bin/git\n", ""));
    let w = match m.ssh_connect_step(step(false, "", "exec format error")) {
        ConnectOp::DoneConnect(w) => w,
        _ => panic!(),
    };
    assert!(!w.ok && w.ssh_ok);
    assert!(w.remote_git.found && !w.remote_git.ok);
    assert_eq!(w.remote_git.path.as_deref(), Some("/bin/git"));
    assert_eq!(w.remote_git.error.as_deref(), Some("exec format error"));
    assert_eq!(w.stderr.as_deref(), Some("exec format error"));
}
