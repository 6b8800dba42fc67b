use gitshlc::action::{run_action_start, RunOp, StartOutcome};
use gitshlc::model::{FileKind, FsEntry, FsView, RunActionRequest, SshConfig, StepResult};

fn req(action: &str) -> RunActionRequest {
    RunActionRequest {
        mode: "local".to_string(),
        env_key: "dev".to_string(),
        action: action.to_string(),
        local_path: "/repo".to_string(),
        remote_path: String::new(),
        branch: "main".to_string(),
        git_path: String::new(),
        ssh_path: String::new(),
        ssh: SshConfig { host: String::new(), user: String::new(), port: None, key_path: None },
        merge_from_branch: None,
        commit_message: None,
    }
}

fn repo_fs() -> FsView {
    FsView {
        entries: vec![
            FsEntry { path: "/repo".to_string(), kind: FileKind::Dir },
            FsEntry { path: "/repo/.git".to_string(), kind: FileKind::Dir },
        ],
    }
}

fn step(ok: bool, stdout: &str, stderr: &str) -> StepResult {
    StepResult {
        cmd: String::new(),
        cwd: None,
        ok,
        exit_code: if ok { 0 } else { 1 },
        stdout: stdout.to_string(),
        stderr: stderr.to_string(),
    }
}

fn args(c: &gitshlc::commands::CmdSpec) -> Vec<&str> {
    c.args.iter().map(|s| s.as_str()).collect()
}

#[test]
fn unknown_action_is_refused_with_config_code_and_no_steps() {
    let mut r = req("rebase");
    r.action = "rebase".to_string();
    match run_action_start(&r, Some("/usr/bin/git".to_string()), &repo_fs()) {
        StartOutcome::Refused(out) => {
            assert!(!out.ok);
            assert!(out.steps.is_empty());
            let e = out.error.expect("error expected");
            assert_eq!(e.code, "CFG-0001");
            assert_eq!(e.severity, "ERROR");
            assert_eq!(e.message, "unknown action");
            assert_eq!(e.detail.as_deref(), Some("rebase"));
            assert_eq!(out.action, "rebase");
        },
        StartOutcome::Begun(..) => panic!("must be refused"),
    }
}

#[test]
fn unknown_mode_is_refused_with_config_code_and_no_steps() {
    let mut r = req("pull");
    r.mode = "telnet".to_string();
    match run_action_start(&r, None, &repo_fs()) {
        StartOutcome::Refused(out) => {
            assert!(!out.ok);
            assert!(out.steps.is_empty());
            let e = out.error.expect("error expected");
            assert_eq!(e.code, "CFG-0002");
            assert_eq!(e.message, "unknown mode (expected local|ssh)");
            assert_eq!(e.detail.as_deref(), Some("telnet"));
        },
        StartOutcome::Begun(..) => panic!("must be refused"),
    }
}

#[test]
fn missing_git_is_fatal() {
    match run_action_start(&req("pull"), None, &repo_fs()) {
        StartOutcome::Refused(out) => {
            let e = out.error.expect("error expected");
            assert_eq!(e.code, "GIT-0001");
            assert_eq!(e.severity, "FATAL");
        },
        StartOutcome::Begun(..) => panic!("must be refused"),
    }
}

#[test]
fn path_validation_codes() {
    let git = Some("/usr/bin/git".to_string());
    let mut r = req("pull");
    r.local_path = "   ".to_string();
    match run_action_start(&r, git.clone(), &repo_fs()) {
        StartOutcome::Refused(out) => assert_eq!(out.error.unwrap().code, "FS-0100"),
        _ => panic!(),
    }
    let r2 = req("pull");
    let empty_fs = FsView { entries: vec![] };
    match run_action_start(&r2, git.clone(), &empty_fs) {
        StartOutcome::Refused(out) => {
            let e = out.error.unwrap();
            assert_eq!(e.code, "FS-0101");
            assert_eq!(e.message, "localPath does not exist");
        },
        _ => panic!(),
    }
    let file_fs = FsView {
        entries: vec![FsEntry { path: "/repo".to_string(), kind: FileKind::File }],
    };
    match run_action_start(&r2, git.clone(), &file_fs) {
        StartOutcome::Refused(out) => {
            assert_eq!(out.error.unwrap().message, "localPath is not a directory");
        },
        _ => panic!(),
    }
    let no_marker = FsView {
        entries: vec![FsEntry { path: "/repo".to_string(), kind: FileKind::Dir }],
    };
    match run_action_start(&r2, git, &no_marker) {
        StartOutcome::Refused(out) => {
            let e = out.error.unwrap();
            assert_eq!(e.code, "FS-0102");
            assert_eq!(e.message, "localPath is not a git repository");
        },
        _ => panic!(),
    }
}

#[test]
fn local_pull_clean_tree_runs_status_fetch_checkout_pull() {
    let (mut m, c) = match run_action_start(&req("pull"), Some("/usr/bin/git".to_string()), &repo_fs()) {
        StartOutcome::Begun(m, c) => (m, c),
        StartOutcome::Refused(out) => panic!("refused: {:?}", out.error.map(|e| e.code)),
    };
    assert_eq!(c.exe, "/usr/bin/git");
    assert_eq!(args(&c), ["-C", "/repo", "symbolic-ref", "--short", "HEAD"]);

    // branch detection succeeds on main
    let op = m.run_action_step(step(true, "main\n", ""));
    let c = match op { RunOp::Run(c) => c, _ => panic!() };
    assert_eq!(args(&c), ["-C", "/repo", "rev-parse", "--verify", "HEAD"]);

    // HEAD exists
    let op = m.run_action_step(step(true, "abc123", ""));
    let c = match op { RunOp::Run(c) => c, _ => panic!() };
    assert_eq!(args(&c), ["-C", "/repo", "status", "--porcelain", "--ignore-submodules"]);

    // clean tree: straight to fetch
    let op = m.run_action_step(step(true, "", ""));
    let c = match op { RunOp::Run(c) => c, _ => panic!() };
    assert_eq!(args(&c), ["-C", "/repo", "fetch", "origin"]);

    let op = m.run_action_step(step(true, "", ""));
    let c = match op { RunOp::Run(c) => c, _ => panic!() };
    assert_eq!(args(&c), ["-C", "/repo", "checkout", "main"]);

    let op = m.run_action_step(step(true, "", ""));
    let c = match op { RunOp::Run(c) => c, _ => panic!() };
    assert_eq!(args(&c), ["-C", "/repo", "pull", "--ff-only", "origin", "main"]);

    let out = match m.run_action_step(step(true, "Already up to date.", "")) {
        RunOp::Done(out) => out,
        _ => panic!(),
    };
    assert!(out.ok);
    assert!(out.error.is_none());
    assert_eq!(out.mode, "local");
    assert_eq!(out.action, "pull");
    assert_eq!(out.env_key, "dev");
    // probes (head, branch, status) then fetch, checkout, pull
    assert_eq!(out.steps.len(), 6);
    assert!(out.steps.iter().all(|s| s.ok));
}

#[test]
fn local_push_dirty_on_target_with_message_stages_and_commits() {
    let mut r = req("push");
    r.commit_message = Some("wip".to_string());
    let (mut m, _c) = match run_action_start(&r, Some("git".to_string()), &repo_fs()) {
        StartOutcome::Begun(m, c) => (m, c),
        _ => panic!(),
    };
    m.run_action_step(step(true, "main\n", "")); // branch
    m.run_action_step(step(true, "abc", "")); // head
    // dirty status
    let op = m.run_action_step(step(true, " M file.txt\n", ""));
    let c = match op { RunOp::Run(c) => c, _ => panic!() };
    assert_eq!(args(&c), ["-C", "/repo", "add", "-A"]);
    let op = m.run_action_step(step(true, "", ""));
    let c = match op { RunOp::Run(c) => c, _ => panic!() };
    assert_eq!(args(&c), ["-C", "/repo", "commit", "-m", "wip"]);
    let op = m.run_action_step(step(true, "", ""));
    let c = match op { RunOp::Run(c) => c, _ => panic!() };
    assert_eq!(args(&c), ["-C", "/repo", "fetch", "origin"]);
    let op = m.run_action_step(step(true, "", ""));
    let c = match op { RunOp::Run(c) => c, _ => panic!() };
    assert_eq!(args(&c), ["-C", "/repo", "checkout", "main"]);
    let op = m.run_action_step(step(true, "", ""));
    let c = match op { RunOp::Run(c) => c, _ => panic!() };
    assert_eq!(args(&c), ["-C", "/repo", "push", "origin", "main"]);
    let out = match m.run_action_step(step(true, "", "")) {
        RunOp::Done(out) => out,
        _ => panic!(),
    };
    assert!(out.ok);
    assert!(out.steps.iter().all(|s| s.ok));
    // head, branch, status, add, commit, fetch, checkout, push
    assert_eq!(out.steps.len(), 8);
}

#[test]
fn push_dirty_on_other_branch_stops_before_staging() {
    let mut r = req("push");
    r.commit_message = Some("wip".to_string());
    let (mut m, _) = match run_action_start(&r, Some("git".to_string()), &repo_fs()) {
        StartOutcome::Begun(m, c) => (m, c),
        _ => panic!(),
    };
    m.run_action_step(step(true, "feature\n", "")); // current branch differs
    m.run_action_step(step(true, "abc", ""));
    let out = match m.run_action_step(step(true, " M f\n", "")) {
        RunOp::Done(out) => out,
        RunOp::Run(_) => panic!("no staging step may be attempted"),
    };
    assert!(!out.ok);
    let e = out.error.unwrap();
    assert_eq!(e.code, "GIT-0103");
    assert_eq!(e.message, "working tree is dirty on a different branch");
    assert_eq!(e.detail.as_deref(), Some("current_branch=feature target_branch=main"));
    // trace ends at the status step: head, branch, status
    assert_eq!(out.steps.len(), 3);
}

#[test]
fn push_dirty_without_message_stops_before_staging() {
    let r = req("push");
    let (mut m, _) = match run_action_start(&r, Some("git".to_string()), &repo_fs()) {
        StartOutcome::Begun(m, c) => (m, c),
        _ => panic!(),
    };
    m.run_action_step(step(true, "main\n", ""));
    m.run_action_step(step(true, "abc", ""));
    let out = match m.run_action_step(step(true, " M f\n", "")) {
        RunOp::Done(out) => out,
        RunOp::Run(_) => panic!("no staging step may be attempted"),
    };
    assert!(!out.ok);
    let e = out.error.unwrap();
    assert_eq!(e.code, "GIT-0104");
    assert_eq!(e.message, "push requires commitMessage when working tree is dirty");
    assert_eq!(out.steps.len(), 3);
}

#[test]
fn failed_fetch_still_attempts_checkout() {
    let (mut m, _) = match run_action_start(&req("pull"), Some("git".to_string()), &repo_fs()) {
        StartOutcome::Begun(m, c) => (m, c),
        _ => panic!(),
    };
    m.run_action_step(step(true, "main\n", ""));
    m.run_action_step(step(true, "abc", ""));
    m.run_action_step(step(true, "", "")); // clean
    // fetch fails
    let op = m.run_action_step(step(false, "", "network down"));
    let c = match op {
        RunOp::Run(c) => c,
        RunOp::Done(_) => panic!("fetch failure must not stop the run"),
    };
    assert_eq!(args(&c), ["-C", "/repo", "checkout", "main"]);
    let op = m.run_action_step(step(true, "", ""));
    let c = match op { RunOp::Run(c) => c, _ => panic!() };
    assert_eq!(args(&c), ["-C", "/repo", "pull", "--ff-only", "origin", "main"]);
    let out = match m.run_action_step(step(true, "", "")) {
        RunOp::Done(out) => out,
        _ => panic!(),
    };
    assert!(!out.ok, "aggregate success must AND in the failed fetch");
    let e = out.error.unwrap();
    assert_eq!(e.code, "GIT-0002");
    assert_eq!(e.message, "git command failed");
    // head, branch, status, failed fetch, checkout, pull all recorded
    assert_eq!(out.steps.len(), 6);
    assert!(!out.steps[3].ok);
}

#[test]
fn dirty_pull_stashes_with_leniency_rule() {
    let (mut m, _) = match run_action_start(&req("pull"), Some("git".to_string()), &repo_fs()) {
        StartOutcome::Begun(m, c) => (m, c),
        _ => panic!(),
    };
    m.run_action_step(step(true, "main\n", ""));
    m.run_action_step(step(true, "abc", ""));
    // dirty tree -> stash
    let op = m.run_action_step(step(true, " M f\n", ""));
    let c = match op { RunOp::Run(c) => c, _ => panic!() };
    assert_eq!(args(&c), ["-C", "/repo", "stash", "--include-untracked"]);
    // stash reports failure but saved a snapshot: tolerated
    let op = m.run_action_step(step(
        false,
        "Saved working directory and index state WIP on main",
        "permission warning",
    ));
    let c = match op { RunOp::Run(c) => c, _ => panic!() };
    assert_eq!(args(&c), ["-C", "/repo", "fetch", "origin"]);
    m.run_action_step(step(true, "", ""));
    m.run_action_step(step(true, "", ""));
    let out = match m.run_action_step(step(true, "", "")) {
        RunOp::Done(out) => out,
        _ => panic!(),
    };
    assert!(out.ok, "the adjusted stash step must count as successful");
}

#[test]
fn local_push_empty_repo_creates_empty_commit_after_checkout() {
    let mut r = req("push");
    r.commit_message = Some("first".to_string());
    let (mut m, _) = match run_action_start(&r, Some("git".to_string()), &repo_fs()) {
        StartOutcome::Begun(m, c) => (m, c),
        _ => panic!(),
    };
    m.run_action_step(step(true, "main\n", ""));
    // HEAD does not resolve: no commits yet (does not stop the run)
    m.run_action_step(step(false, "", "fatal: needed a single revision"));
    // clean tree
    let op = m.run_action_step(step(true, "", ""));
    let c = match op { RunOp::Run(c) => c, _ => panic!() };
    assert_eq!(args(&c), ["-C", "/repo", "fetch", "origin"]);
    m.run_action_step(step(true, "", ""));
    // after checkout: the empty commit
    let op = m.run_action_step(step(false, "", "pathspec did not match"));
    let c = match op { RunOp::Run(c) => c, _ => panic!() };
    assert_eq!(args(&c), ["-C", "/repo", "commit", "--allow-empty", "-m", "first"]);
    let op = m.run_action_step(step(true, "", ""));
    let c = match op { RunOp::Run(c) => c, _ => panic!() };
    assert_eq!(args(&c), ["-C", "/repo", "push", "origin", "main"]);
    let out = match m.run_action_step(step(true, "", "")) {
        RunOp::Done(out) => out,
        _ => panic!(),
    };
    // the failed head probe and failed checkout are in the trace
    assert!(!out.ok);
}

#[test]
fn merge_without_source_branch_fails_at_tail() {
    let (mut m, _) = match run_action_start(&req("merge"), Some("git".to_string()), &repo_fs()) {
        StartOutcome::Begun(m, c) => (m, c),
        _ => panic!(),
    };
    m.run_action_step(step(true, "main\n", ""));
    m.run_action_step(step(true, "abc", ""));
    m.run_action_step(step(true, "", ""));
    m.run_action_step(step(true, "", "")); // fetch
    let out = match m.run_action_step(step(true, "", "")) { // checkout
        RunOp::Done(out) => out,
        RunOp::Run(_) => panic!("merge without a source must not issue its commands"),
    };
    let e = out.error.unwrap();
    assert_eq!(e.code, "CFG-0003");
    assert_eq!(e.message, "mergeFromBranch is required for merge");
}

#[test]
fn local_merge_uses_local_branch_name() {
    let mut r = req("merge");
    r.merge_from_branch = Some("feature".to_string());
    let (mut m, _) = match run_action_start(&r, Some("git".to_string()), &repo_fs()) {
        StartOutcome::Begun(m, c) => (m, c),
        _ => panic!(),
    };
    m.run_action_step(step(true, "main\n", ""));
    m.run_action_step(step(true, "abc", ""));
    m.run_action_step(step(true, "", ""));
    m.run_action_step(step(true, "", "")); // fetch
    let op = m.run_action_step(step(true, "", "")); // checkout
    let c = match op { RunOp::Run(c) => c, _ => panic!() };
    assert_eq!(args(&c), ["-C", "/repo", "fetch", "origin", "feature"]);
    let op = m.run_action_step(step(true, "", ""));
    let c = match op { RunOp::Run(c) => c, _ => panic!() };
    assert_eq!(args(&c), ["-C", "/repo", "merge", "--no-ff", "feature"]);
    let op = m.run_action_step(step(true, "", ""));
    let c = match op { RunOp::Run(c) => c, _ => panic!() };
    assert_eq!(args(&c), ["-C", "/repo", "push", "origin", "main"]);
    let out = match m.run_action_step(step(true, "", "")) {
        RunOp::Done(out) => out,
        _ => panic!(),
    };
    assert!(out.ok);
}

#[test]
fn local_trace_records_head_probe_before_branch_probe() {
    let (mut m, _) = match run_action_start(&req("pull"), Some("git".to_string()), &repo_fs()) {
        StartOutcome::Begun(m, c) => (m, c),
        _ => panic!(),
    };
    let mut branch_step = step(true, "main\n", "");
    branch_step.cmd = "branch-probe".to_string();
    let mut head_step = step(true, "abc", "");
    head_step.cmd = "head-probe".to_string();
    m.run_action_step(branch_step);
    m.run_action_step(head_step);
    m.run_action_step(step(true, "", ""));
    m.run_action_step(step(true, "", ""));
    m.run_action_step(step(true, "", ""));
    let out = match m.run_action_step(step(true, "", "")) {
        RunOp::Done(out) => out,
        _ => panic!(),
    };
    assert_eq!(out.steps[0].cmd, "head-probe");
    assert_eq!(out.steps[1].cmd, "branch-probe");
}

#[test]
fn branch_detection_failure_is_fatal_to_the_run() {
    let (mut m, _) = match run_action_start(&req("pull"), Some("git".to_string()), &repo_fs()) {
        StartOutcome::Begun(m, c) => (m, c),
        _ => panic!(),
    };
    let out = match m.run_action_step(step(false, "", "fatal: not a symbolic ref")) {
        RunOp::Done(out) => out,
        _ => panic!("branch detection failure must stop the run"),
    };
    let e = out.error.unwrap();
    assert_eq!(e.code, "GIT-0100");
    assert_eq!(e.message, "failed to get current branch");
    assert_eq!(e.detail.as_deref(), Some("fatal: not a symbolic ref"));
    assert_eq!(out.steps.len(), 1);
}

#[test]
fn status_failure_is_fatal_with_detail() {
    let (mut m, _) = match run_action_start(&req("pull"), Some("git".to_string()), &repo_fs()) {
        StartOutcome::Begun(m, c) => (m, c),
        _ => panic!(),
    };
    m.run_action_step(step(true, "main\n", ""));
    m.run_action_step(step(true, "abc", ""));
    let out = match m.run_action_step(step(false, "", "boom")) {
        RunOp::Done(out) => out,
        _ => panic!(),
    };
    let e = out.error.unwrap();
    assert_eq!(e.code, "GIT-0101");
    assert_eq!(e.detail.as_deref(), Some("git status failed: boom"));
}
