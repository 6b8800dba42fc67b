use gitshlc::action::{run_action_start, RunOp, StartOutcome};
use gitshlc::model::{FsView, RunActionRequest, SshConfig, StepResult};

fn req(action: &str) -> RunActionRequest {
    RunActionRequest {
        mode: "ssh".to_string(),
        env_key: "prod".to_string(),
        action: action.to_string(),
        local_path: String::new(),
        remote_path: "/srv/repo".to_string(),
        branch: "main".to_string(),
        git_path: String::new(),
        ssh_path: String::new(),
        ssh: SshConfig {
            host: "example.com".to_string(),
            user: "deploy".to_string(),
            port: None,
            key_path: None,
        },
        merge_from_branch: None,
        commit_message: None,
    }
}

fn no_fs() -> FsView {
    FsView { entries: vec![] }
}

fn step(ok: bool, stdout: &str, stderr: &str) -> StepResult {
    StepResult {
        cmd: String::new(),
        cwd: None,
        ok,
        exit_code: if ok { 0 } else { 255 },
        stdout: stdout.to_string(),
        stderr: stderr.to_string(),
    }
}

fn args(c: &gitshlc::commands::CmdSpec) -> Vec<&str> {
    c.args.iter().map(|s| s.as_str()).collect()
}

fn remote_cmd(c: &gitshlc::commands::CmdSpec) -> &str {
    c.args.last().expect("remote command expected").as_str()
}

#[test]
fn ssh_validation_codes() {
    match run_action_start(&req("pull"), None, &no_fs()) {
        StartOutcome::Refused(out) => {
            let e = out.error.unwrap();
            assert_eq!(e.code, "SSH-0001");
            assert_eq!(e.severity, "FATAL");
        },
        _ => panic!(),
    }
    let mut r = req("pull");
    r.ssh.host = "  ".to_string();
    match run_action_start(&r, Some("ssh".to_string()), &no_fs()) {
        StartOutcome::Refused(out) => assert_eq!(out.error.unwrap().code, "CFG-0302"),
        _ => panic!(),
    }
    let mut r2 = req("pull");
    r2.remote_path = String::new();
    match run_action_start(&r2, Some("ssh".to_string()), &no_fs()) {
        StartOutcome::Refused(out) => assert_eq!(out.error.unwrap().code, "CFG-0303"),
        _ => panic!(),
    }
}

#[test]
fn ssh_transport_invocation_is_batch_mode_with_port_and_quoted_cd() {
    let (_m, c) = match run_action_start(&req("pull"), Some("/usr/bin/ssh".to_string()), &no_fs()) {
        StartOutcome::Begun(m, c) => (m, c),
        _ => panic!(),
    };
    assert_eq!(c.exe, "/usr/bin/ssh");
    let a = args(&c);
    assert_eq!(
        &a[..8],
        &["-p", "22", "-o", "BatchMode=yes", "-o", "ConnectTimeout=5", "-o", "ConnectionAttempts=1"],
    );
    assert_eq!(a[8], "deploy@example.com");
    assert_eq!(a[9], "--");
    assert_eq!(
        a[10],
        "cd '/srv/repo' && (git symbolic-ref --short HEAD 2>/dev/null || git rev-parse --abbrev-ref HEAD)",
    );
}

#[test]
fn ssh_custom_port_and_key_are_passed() {
    let mut r = req("pull");
    r.ssh.port = Some(2222);
    r.ssh.key_path = Some("/home/me/.ssh/id_ed25519".to_string());
    let (_m, c) = match run_action_start(&r, Some("ssh".to_string()), &no_fs()) {
        StartOutcome::Begun(m, c) => (m, c),
        _ => panic!(),
    };
    let a = args(&c);
    assert_eq!(a[1], "2222");
    assert_eq!(a[8], "-i");
    assert_eq!(a[9], "/home/me/.ssh/id_ed25519");
    assert_eq!(a[10], "deploy@example.com");
}

#[test]
fn ssh_merge_fetches_source_merges_tracking_form_and_pushes() {
    let mut r = req("merge");
    r.merge_from_branch = Some("feature".to_string());
    let (mut m, _) = match run_action_start(&r, Some("ssh".to_string()), &no_fs()) {
        StartOutcome::Begun(m, c) => (m, c),
        _ => panic!(),
    };
    let op = m.run_action_step(step(true, "main\n", "")); // branch
    let c = match op { RunOp::Run(c) => c, _ => panic!() };
    assert_eq!(remote_cmd(&c), "cd '/srv/repo' && git rev-parse --verify HEAD");
    let op = m.run_action_step(step(true, "abc", "")); // head
    let c = match op { RunOp::Run(c) => c, _ => panic!() };
    assert_eq!(remote_cmd(&c), "cd '/srv/repo' && git status --porcelain --ignore-submodules");
    let op = m.run_action_step(step(true, "", "")); // clean
    let c = match op { RunOp::Run(c) => c, _ => panic!() };
    assert_eq!(remote_cmd(&c), "cd '/srv/repo' && git fetch origin");
    let op = m.run_action_step(step(true, "", ""));
    let c = match op { RunOp::Run(c) => c, _ => panic!() };
    assert_eq!(remote_cmd(&c), "cd '/srv/repo' && git checkout 'main'");
    let op = m.run_action_step(step(true, "", ""));
    let c = match op { RunOp::Run(c) => c, _ => panic!() };
    assert_eq!(remote_cmd(&c), "cd '/srv/repo' && git fetch origin 'feature'");
    let op = m.run_action_step(step(true, "", ""));
    let c = match op { RunOp::Run(c) => c, _ => panic!() };
    assert_eq!(remote_cmd(&c), "cd '/srv/repo' && git merge --no-ff 'origin/feature'");
    let op = m.run_action_step(step(true, "", ""));
    let c = match op { RunOp::Run(c) => c, _ => panic!() };
    assert_eq!(remote_cmd(&c), "cd '/srv/repo' && git push origin 'main'");
    let out = match m.run_action_step(step(true, "", "")) {
        RunOp::Done(out) => out,
        _ => panic!(),
    };
    assert!(out.ok);
    assert_eq!(out.mode, "ssh");
    assert_eq!(out.action, "merge");
    assert_eq!(out.steps.len(), 8);
}

#[test]
fn ssh_merge_without_source_short_circuits_before_its_commands() {
    let (mut m, _) = match run_action_start(&req("merge"), Some("ssh".to_string()), &no_fs()) {
        StartOutcome::Begun(m, c) => (m, c),
        _ => panic!(),
    };
    m.run_action_step(step(true, "main\n", ""));
    m.run_action_step(step(true, "abc", ""));
    m.run_action_step(step(true, "", ""));
    m.run_action_step(step(true, "", "")); // fetch
    let out = match m.run_action_step(step(true, "", "")) { // checkout
        RunOp::Done(out) => out,
        RunOp::Run(_) => panic!("no merge command may run without a source branch"),
    };
    let e = out.error.unwrap();
    assert_eq!(e.code, "CFG-0201");
    assert_eq!(e.message, "mergeFromBranch is required for merge");
}

#[test]
fn ssh_push_dirty_guards_use_the_remote_codes() {
    // dirty on a different branch
    let mut r = req("push");
    r.commit_message = Some("wip".to_string());
    let (mut m, _) = match run_action_start(&r, Some("ssh".to_string()), &no_fs()) {
        StartOutcome::Begun(m, c) => (m, c),
        _ => panic!(),
    };
    m.run_action_step(step(true, "feature\n", ""));
    m.run_action_step(step(true, "abc", ""));
    let out = match m.run_action_step(step(true, " M f\n", "")) {
        RunOp::Done(out) => out,
        _ => panic!(),
    };
    let e = out.error.unwrap();
    assert_eq!(e.code, "GIT-0104");
    assert_eq!(e.detail.as_deref(), Some("current=feature, target=main"));

    // dirty without a message
    let (mut m2, _) = match run_action_start(&req("push"), Some("ssh".to_string()), &no_fs()) {
        StartOutcome::Begun(m, c) => (m, c),
        _ => panic!(),
    };
    m2.run_action_step(step(true, "main\n", ""));
    m2.run_action_step(step(true, "abc", ""));
    let out2 = match m2.run_action_step(step(true, " M f\n", "")) {
        RunOp::Done(out) => out,
        _ => panic!(),
    };
    assert_eq!(out2.error.unwrap().code, "GIT-0103");
}

#[test]
fn ssh_push_empty_repo_creates_empty_commit_before_fetch() {
    let mut r = req("push");
    r.commit_message = Some("first".to_string());
    let (mut m, _) = match run_action_start(&r, Some("ssh".to_string()), &no_fs()) {
        StartOutcome::Begun(m, c) => (m, c),
        _ => panic!(),
    };
    m.run_action_step(step(true, "main\n", ""));
    // no commits yet
    m.run_action_step(step(false, "", "fatal"));
    // clean: the empty commit comes before the fetch in remote mode
    let op = m.run_action_step(step(true, "", ""));
    let c = match op { RunOp::Run(c) => c, _ => panic!() };
    assert_eq!(remote_cmd(&c), "cd '/srv/repo' && git commit --allow-empty -m 'first'");
    let op = m.run_action_step(step(true, "", ""));
    let c = match op { RunOp::Run(c) => c, _ => panic!() };
    assert_eq!(remote_cmd(&c), "cd '/srv/repo' && git fetch origin");
}

#[test]
fn ssh_commit_message_is_shell_quoted() {
    let mut r = req("push");
    r.commit_message = Some("it's done; rm -rf /".to_string());
    let (mut m, _) = match run_action_start(&r, Some("ssh".to_string()), &no_fs()) {
        StartOutcome::Begun(m, c) => (m, c),
        _ => panic!(),
    };
    m.run_action_step(step(true, "main\n", ""));
    m.run_action_step(step(true, "abc", ""));
    let op = m.run_action_step(step(true, " M f\n", "")); // dirty -> add
    let c = match op { RunOp::Run(c) => c, _ => panic!() };
    assert_eq!(remote_cmd(&c), "cd '/srv/repo' && git add -A");
    let op = m.run_action_step(step(true, "", ""));
    let c = match op { RunOp::Run(c) => c, _ => panic!() };
    assert_eq!(
        remote_cmd(&c),
        "cd '/srv/repo' && git commit -m 'it'\\''s done; rm -rf /'",
    );
}

#[test]
fn ssh_aggregate_failure_uses_remote_code() {
    let (mut m, _) = match run_action_start(&req("pull"), Some("ssh".to_string()), &no_fs()) {
        StartOutcome::Begun(m, c) => (m, c),
        _ => panic!(),
    };
    m.run_action_step(step(true, "main\n", ""));
    m.run_action_step(step(true, "abc", ""));
    m.run_action_step(step(true, "", ""));
    m.run_action_step(step(false, "", "no route")); // fetch fails
    m.run_action_step(step(true, "", "")); // checkout still runs
    let out = match m.run_action_step(step(false, "", "not fast-forward")) {
        RunOp::Done(out) => out,
        _ => panic!(),
    };
    assert!(!out.ok);
    let e = out.error.unwrap();
    assert_eq!(e.code, "SSH-0200");
    assert_eq!(e.message, "remote command failed");
}
