use gitshlc::model::StepResult;
use gitshlc::probes::{check_tool, git_remote_origin_url, git_status_clean, run_version};

fn step(ok: bool, stdout: &str, stderr: &str) -> StepResult {
    StepResult {
        cmd: String::new(),
        cwd: None,
        ok,
        exit_code: if ok { 0 } else { 1 },
        stdout: stdout.to_string(),
        stderr: stderr.to_string(),
    }
}

#[test]
fn run_version_prefers_stdout_for_the_version() {
    let (ok, ver, err) = run_version(&step(true, "git version 2.39.0\n", ""));
    assert!(ok);
    assert_eq!(ver.as_deref(), Some("git version 2.39.0"));
    assert!(err.is_none());
}

#[test]
fn run_version_takes_stderr_when_stdout_is_blank() {
    // some tools print their version to standard error
    let (ok, ver, err) = run_version(&step(true, "  ", "OpenSSH_9.0\n"));
    assert!(ok);
    assert_eq!(ver.as_deref(), Some("OpenSSH_9.0"));
    assert!(err.is_none());
}

#[test]
fn run_version_failure_reports_error_text() {
    let (ok, ver, err) = run_version(&step(false, "", "no such file"));
    assert!(!ok);
    assert_eq!(ver.as_deref(), Some("no such file"));
    assert_eq!(err.as_deref(), Some("no such file"));

    let (_, ver2, err2) = run_version(&step(false, "", ""));
    assert!(ver2.is_none());
    assert_eq!(err2.as_deref(), Some("command failed"));
}

#[test]
fn check_tool_found_and_missing() {
    let found = check_tool("git", Some(("/usr/bin/git".to_string(), step(true, "git version 2.39.0", ""))));
    assert!(found.found && found.ok);
    assert_eq!(found.path.as_deref(), Some("/usr/bin/git"));
    assert_eq!(found.version.as_deref(), Some("git version 2.39.0"));
    assert!(found.error.is_none());

    let missing = check_tool("ssh", None);
    assert!(!missing.found && !missing.ok);
    assert!(missing.path.is_none());
    assert_eq!(missing.error.as_deref(), Some("ssh not found"));
}

#[test]
fn status_clean_interpretation() {
    assert_eq!(git_status_clean(&step(true, "", "")), Ok(true));
    assert_eq!(git_status_clean(&step(true, "  \n", "")), Ok(true));
    assert_eq!(git_status_clean(&step(true, " M src/main.rs\n", "")), Ok(false));
    assert_eq!(
        git_status_clean(&step(false, "", "not a git repository")),
        Err("git status failed: not a git repository".to_string()),
    );
}

#[test]
fn origin_url_interpretation() {
    assert_eq!(
        git_remote_origin_url(&step(true, "git@example.com:me/repo.git\n", "")),
        Some("git@example.com:me/repo.git".to_string()),
    );
    assert_eq!(git_remote_origin_url(&step(true, "  \n", "")), None);
    assert_eq!(git_remote_origin_url(&step(false, "url", "boom")), None);
}
