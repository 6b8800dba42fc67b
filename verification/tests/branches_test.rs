use gitshlc::branches::{list_branches_result, parse_remote_heads};
use gitshlc::model::StepResult;

fn step(ok: bool, stdout: &str, stderr: &str) -> StepResult {
    StepResult {
        cmd: String::new(),
        cwd: None,
        ok,
        exit_code: if ok { 0 } else { 128 },
        stdout: stdout.to_string(),
        stderr: stderr.to_string(),
    }
}

#[test]
fn heads_are_sorted_and_deduplicated() {
    let out = "\
aaa1\trefs/heads/main\n\
bbb2\trefs/heads/develop\n\
ccc3\trefs/heads/main\n\
ddd4\trefs/heads/api\n";
    assert_eq!(parse_remote_heads(out), vec![
        "api".to_string(),
        "develop".to_string(),
        "main".to_string(),
    ]);
}

#[test]
fn only_heads_contribute() {
    let out = "\
aaa1\trefs/heads/main\n\
bbb2\trefs/tags/v1.0\n\
ccc3\trefs/remotes/origin/x\n\
ddd4\tHEAD\n\
malformed line without tab\n";
    assert_eq!(parse_remote_heads(out), vec!["main".to_string()]);
}

#[test]
fn empty_output_yields_no_branches() {
    assert!(parse_remote_heads("").is_empty());
    assert!(parse_remote_heads("sha\trefs/heads/\n").is_empty());
}

#[test]
fn list_branches_success_and_failure() {
    let ok = list_branches_result(&step(true, "a\trefs/heads/zeta\nb\trefs/heads/alpha\n", ""));
    assert!(ok.ok);
    assert!(ok.stderr.is_none());
    assert_eq!(ok.branches, vec!["alpha".to_string(), "zeta".to_string()]);

    let failed = list_branches_result(&step(false, "", "fatal: repository not found"));
    assert!(!failed.ok);
    assert!(failed.branches.is_empty());
    assert_eq!(failed.stderr.as_deref(), Some("fatal: repository not found"));

    // blank standard error: the message falls back to standard output
    let failed2 = list_branches_result(&step(false, "some notice", "  "));
    assert_eq!(failed2.stderr.as_deref(), Some("some notice"));
}
