use gitshlc::model::{FileKind, FsEntry, FsView};
use gitshlc::resolve::{
    find_in_path, git_exe, has_extension, is_git_repo_dir, join_path, looks_like_path, pathexts,
    repo_is_git_dir, resolve_executable, should_skip_dir, ssh_exe,
};

fn fs(entries: Vec<(&str, FileKind)>) -> FsView {
    FsView {
        entries: entries
            .into_iter()
            .map(|(p, k)| FsEntry { path: p.to_string(), kind: k })
            .collect(),
    }
}

fn dirs(v: &[&str]) -> Vec<String> {
    v.iter().map(|s| s.to_string()).collect()
}

#[test]
fn looks_like_path_cases() {
    assert!(looks_like_path("/usr/bin/git"));
    assert!(looks_like_path("C:\\Git"));
    assert!(looks_like_path("C:git"));
    assert!(!looks_like_path("git"));
}

#[test]
fn has_extension_cases() {
    assert!(has_extension("git.exe"));
    assert!(has_extension("/opt/tool/run.sh"));
    assert!(!has_extension("git"));
    assert!(!has_extension(".bashrc"));
    assert!(!has_extension("/dotted.dir/name"));
}

#[test]
fn explicit_file_path_wins() {
    let f = fs(vec![("/opt/git", FileKind::File)]);
    let r = resolve_executable(
        &Some("/opt/git".to_string()),
        "git",
        &dirs(&[]),
        false,
        &dirs(&[]),
        &dirs(&[]),
        &f,
    );
    assert_eq!(r.as_deref(), Some("/opt/git"));
}

#[test]
fn explicit_directory_probes_base_name_inside() {
    let f = fs(vec![
        ("/opt/tools", FileKind::Dir),
        ("/opt/tools/git", FileKind::File),
    ]);
    let r = resolve_executable(
        &Some("/opt/tools".to_string()),
        "git",
        &dirs(&[]),
        false,
        &dirs(&[]),
        &dirs(&[]),
        &f,
    );
    assert_eq!(r.as_deref(), Some("/opt/tools/git"));
}

#[test]
fn explicit_directory_probes_exe_form_on_windows() {
    let f = fs(vec![
        ("C:\\Tools", FileKind::Dir),
        ("C:\\Tools/git.exe", FileKind::File),
    ]);
    let r = resolve_executable(
        &Some("C:\\Tools".to_string()),
        "git",
        &dirs(&[]),
        true,
        &dirs(&[]),
        &dirs(&[]),
        &f,
    );
    assert_eq!(r.as_deref(), Some("C:\\Tools/git.exe"));
}

#[test]
fn bare_name_hint_searches_the_path() {
    let f = fs(vec![("/usr/local/bin/mygit", FileKind::File)]);
    let r = resolve_executable(
        &Some("mygit".to_string()),
        "git",
        &dirs(&[]),
        false,
        &dirs(&["/usr/bin", "/usr/local/bin"]),
        &dirs(&[]),
        &f,
    );
    assert_eq!(r.as_deref(), Some("/usr/local/bin/mygit"));
}

#[test]
fn known_paths_come_before_the_path_search() {
    let f = fs(vec![
        ("/opt/vendored/git", FileKind::File),
        ("/usr/bin/git", FileKind::File),
    ]);
    let r = resolve_executable(
        &None,
        "git",
        &dirs(&["/opt/vendored/git"]),
        false,
        &dirs(&["/usr/bin"]),
        &dirs(&[]),
        &f,
    );
    assert_eq!(r.as_deref(), Some("/opt/vendored/git"));
}

#[test]
fn path_search_tries_extensions_on_windows() {
    let f = fs(vec![("C:\\W/git.EXE", FileKind::File)]);
    let r = find_in_path(
        "git",
        true,
        &dirs(&["C:\\W"]),
        &dirs(&[".EXE", ".CMD"]),
        &f,
    );
    assert_eq!(r.as_deref(), Some("C:\\W/git.EXE"));
    // with an extension already present, no extension probing happens
    let none = find_in_path(
        "git.cmd",
        true,
        &dirs(&["C:\\W"]),
        &dirs(&[".EXE"]),
        &fs(vec![("C:\\W/git.cmd.EXE", FileKind::File)]),
    );
    assert!(none.is_none());
}

#[test]
fn nothing_found_is_none() {
    let f = fs(vec![]);
    assert!(resolve_executable(
        &None,
        "git",
        &dirs(&[]),
        false,
        &dirs(&["/usr/bin"]),
        &dirs(&[]),
        &f,
    )
        .is_none());
}

#[test]
fn git_and_ssh_resolution_use_their_known_paths() {
    let f = fs(vec![("C:\\Program Files\\Git\\cmd\\git.exe", FileKind::File)]);
    let r = git_exe(&None, true, &dirs(&[]), &dirs(&[]), &f);
    assert_eq!(r.as_deref(), Some("C:\\Program Files\\Git\\cmd\\git.exe"));

    let f2 = fs(vec![("C:\\Windows\\System32\\OpenSSH\\ssh.exe", FileKind::File)]);
    let r2 = ssh_exe(&None, true, &dirs(&[]), &dirs(&[]), &f2);
    assert_eq!(r2.as_deref(), Some("C:\\Windows\\System32\\OpenSSH\\ssh.exe"));

    let empty = fs(vec![]);
    assert!(git_exe(&None, false, &dirs(&[]), &dirs(&[]), &empty).is_none());
}

#[test]
fn pathexts_parsing() {
    assert!(pathexts(false, &Some(".EXE;.CMD".to_string())).is_empty());
    assert_eq!(
        pathexts(true, &Some(".EXE; .CMD ;;".to_string())),
        vec![".EXE".to_string(), ".CMD".to_string()],
    );
    assert_eq!(
        pathexts(true, &None),
        vec![".EXE".to_string(), ".CMD".to_string(), ".BAT".to_string(), ".COM".to_string()],
    );
}

#[test]
fn repo_markers() {
    let f = fs(vec![
        ("/repo/.git", FileKind::Dir),
        ("/work/.git", FileKind::File),
    ]);
    assert!(repo_is_git_dir(&f, "/repo"));
    assert!(is_git_repo_dir(&f, "/repo"));
    assert!(is_git_repo_dir(&f, "/work"));
    assert!(!repo_is_git_dir(&f, "/other"));
    assert!(!is_git_repo_dir(&f, "/other"));
}

#[test]
fn skip_list() {
    for name in [".git", "node_modules", "target", "dist", "build", ".venv", ".idea", ".vscode"] {
        assert!(should_skip_dir(name), "{name}");
    }
    assert!(!should_skip_dir("src"));
    assert!(!should_skip_dir("Target"));
}

#[test]
fn join_path_uses_forward_slash() {
    assert_eq!(join_path("/usr/bin", "git"), "/usr/bin/git");
}
