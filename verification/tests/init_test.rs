use gitshlc::initrepo::{init_local_repo_start, InitEvent, InitOp, InitStart};
use gitshlc::model::{FileKind, FsEntry, FsView, StepResult};

fn step(ok: bool, stdout: &str) -> StepResult {
    StepResult {
        cmd: String::new(),
        cwd: None,
        ok,
        exit_code: if ok { 0 } else { 1 },
        stdout: stdout.to_string(),
        stderr: String::new(),
    }
}

fn args(c: &gitshlc::commands::CmdSpec) -> Vec<&str> {
    c.args.iter().map(|s| s.as_str()).collect()
}

#[test]
fn init_missing_git_is_fatal() {
    let fs = FsView { entries: vec![] };
    match init_local_repo_start(None, "/repo", None, None, &fs) {
        InitStart::RefusedInit(out) => {
            let e = out.error.unwrap();
            assert_eq!(e.code, "GIT-0001");
            assert_eq!(e.severity, "FATAL");
            assert_eq!(e.message, "git not found. Run preflight and set gitPath if needed.");
            assert!(out.steps.is_empty());
        },
        _ => panic!(),
    }
}

#[test]
fn blank_path_is_refused() {
    let fs = FsView { entries: vec![] };
    match init_local_repo_start(Some("git".to_string()), "  ", None, None, &fs) {
        InitStart::RefusedInit(out) => {
            assert_eq!(out.error.unwrap().code, "GIT-0401");
        },
        _ => panic!(),
    }
}

#[test]
fn already_initialized_is_success_with_info_and_one_skip_step() {
    let fs = FsView {
        entries: vec![
            FsEntry { path: "/repo".to_string(), kind: FileKind::Dir },
            FsEntry { path: "/repo/.git".to_string(), kind: FileKind::Dir },
        ],
    };
    match init_local_repo_start(Some("git".to_string()), "/repo", None, None, &fs) {
        InitStart::RefusedInit(out) => {
            assert!(out.ok);
            assert_eq!(out.mode, "local");
            assert_eq!(out.action, "init");
            assert_eq!(out.env_key, "init");
            assert_eq!(out.steps.len(), 1);
            let s = &out.steps[0];
            assert!(s.ok);
            assert_eq!(s.cmd, "[skip] already initialized: /repo");
            assert_eq!(s.cwd.as_deref(), Some("/repo"));
            let e = out.error.unwrap();
            assert_eq!(e.severity, "INFO");
            assert_eq!(e.code, "GIT-0403");
            assert_eq!(e.message, ".git already exists (already initialized)");
        },
        _ => panic!("must finish without running a command"),
    }
}

#[test]
fn full_flow_with_mkdir_branch_and_remote() {
    let fs = FsView { entries: vec![] }; // directory does not exist yet
    let (mut m, op) = match init_local_repo_start(
        Some("/usr/bin/git".to_string()),
        "/repo",
        Some("git@example.com:me/repo.git".to_string()),
        Some("trunk".to_string()),
        &fs,
    ) {
        InitStart::BegunInit(m, op) => (m, op),
        _ => panic!(),
    };
    match op {
        InitOp::MkDir(p) => assert_eq!(p, "/repo"),
        _ => panic!("must create the directory first"),
    }
    // directory created
    let op = m.init_local_repo_step(InitEvent::MkDirOk);
    let c = match op { InitOp::Exec(c) => c, _ => panic!() };
    assert_eq!(c.exe, "/usr/bin/git");
    assert_eq!(args(&c), ["init"]);
    assert_eq!(c.cwd.as_deref(), Some("/repo"));
    // init done -> symbolic-ref to the requested branch
    let op = m.init_local_repo_step(InitEvent::Step(step(true, "")));
    let c = match op { InitOp::Exec(c) => c, _ => panic!() };
    assert_eq!(args(&c), ["symbolic-ref", "HEAD", "refs/heads/trunk"]);
    // symref done -> remote list (a URL was supplied)
    let op = m.init_local_repo_step(InitEvent::Step(step(true, "")));
    let c = match op { InitOp::Exec(c) => c, _ => panic!() };
    assert_eq!(args(&c), ["remote"]);
    // origin already listed -> set-url
    let op = m.init_local_repo_step(InitEvent::Step(step(true, "origin\nupstream\n")));
    let c = match op { InitOp::Exec(c) => c, _ => panic!() };
    assert_eq!(args(&c), ["remote", "set-url", "origin", "git@example.com:me/repo.git"]);
    let out = match m.init_local_repo_step(InitEvent::Step(step(true, ""))) {
        InitOp::Done(out) => out,
        _ => panic!(),
    };
    assert!(out.ok);
    assert!(out.error.is_none());
    // mkdir, init, symref, remote, set-url
    assert_eq!(out.steps.len(), 5);
    assert_eq!(out.steps[0].cmd, "mkdir -p /repo");
}

#[test]
fn remote_add_when_origin_absent() {
    let fs = FsView {
        entries: vec![FsEntry { path: "/repo".to_string(), kind: FileKind::Dir }],
    };
    let (mut m, op) = match init_local_repo_start(
        Some("git".to_string()),
        "/repo",
        Some("url".to_string()),
        None,
        &fs,
    ) {
        InitStart::BegunInit(m, op) => (m, op),
        _ => panic!(),
    };
    let c = match op { InitOp::Exec(c) => c, _ => panic!() };
    assert_eq!(args(&c), ["init"]);
    // default branch is main
    let op = m.init_local_repo_step(InitEvent::Step(step(true, "")));
    let c = match op { InitOp::Exec(c) => c, _ => panic!() };
    assert_eq!(args(&c), ["symbolic-ref", "HEAD", "refs/heads/main"]);
    let op = m.init_local_repo_step(InitEvent::Step(step(true, "")));
    let c = match op { InitOp::Exec(c) => c, _ => panic!() };
    assert_eq!(args(&c), ["remote"]);
    // no origin in the list -> add
    let op = m.init_local_repo_step(InitEvent::Step(step(true, "upstream\n")));
    let c = match op { InitOp::Exec(c) => c, _ => panic!() };
    assert_eq!(args(&c), ["remote", "add", "origin", "url"]);
}

#[test]
fn mkdir_failure_stops_with_error() {
    let fs = FsView { entries: vec![] };
    let (mut m, _) = match init_local_repo_start(Some("git".to_string()), "/repo", None, None, &fs)
    {
        InitStart::BegunInit(m, op) => (m, op),
        _ => panic!(),
    };
    let out = match m.init_local_repo_step(InitEvent::MkDirErr("permission denied".to_string())) {
        InitOp::Done(out) => out,
        _ => panic!(),
    };
    assert!(!out.ok);
    let e = out.error.unwrap();
    assert_eq!(e.code, "GIT-0402");
    assert_eq!(e.message, "failed to create directory");
    assert_eq!(out.steps.len(), 1);
    assert!(!out.steps[0].ok);
    assert_eq!(out.steps[0].stderr, "permission denied");
}

#[test]
fn failed_init_step_still_runs_the_rest_and_fails_aggregate() {
    let fs = FsView {
        entries: vec![FsEntry { path: "/repo".to_string(), kind: FileKind::Dir }],
    };
    let (mut m, op) = match init_local_repo_start(Some("git".to_string()), "/repo", None, None, &fs)
    {
        InitStart::BegunInit(m, op) => (m, op),
        _ => panic!(),
    };
    let c = match op { InitOp::Exec(c) => c, _ => panic!() };
    assert_eq!(args(&c), ["init"]);
    // init fails; the branch step is still attempted
    let op = m.init_local_repo_step(InitEvent::Step(step(false, "")));
    let c = match op { InitOp::Exec(c) => c, _ => panic!() };
    assert_eq!(args(&c), ["symbolic-ref", "HEAD", "refs/heads/main"]);
    // no URL: the run closes after the branch step
    let out = match m.init_local_repo_step(InitEvent::Step(step(true, ""))) {
        InitOp::Done(out) => out,
        _ => panic!(),
    };
    assert!(!out.ok);
    let e = out.error.unwrap();
    assert_eq!(e.code, "GIT-0499");
    assert_eq!(e.message, "init failed (see steps)");
}

#[test]
fn blank_branch_skips_the_symbolic_ref_step() {
    let fs = FsView {
        entries: vec![FsEntry { path: "/repo".to_string(), kind: FileKind::Dir }],
    };
    let (mut m, op) = match init_local_repo_start(
        Some("git".to_string()),
        "/repo",
        None,
        Some("   ".to_string()),
        &fs,
    ) {
        InitStart::BegunInit(m, op) => (m, op),
        _ => panic!(),
    };
    let c = match op { InitOp::Exec(c) => c, _ => panic!() };
    assert_eq!(args(&c), ["init"]);
    let out = match m.init_local_repo_step(InitEvent::Step(step(true, ""))) {
        InitOp::Done(out) => out,
        _ => panic!(),
    };
    assert!(out.ok);
    assert_eq!(out.steps.len(), 1);
}
