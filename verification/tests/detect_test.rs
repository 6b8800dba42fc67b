use gitshlc::detect::{parse_detect_output, parse_detect_row, remote_detect_command};

#[test]
fn scan_command_is_quoted_and_clamped() {
    let cmd = remote_detect_command("  /home/me  ", 0, 60000);
    assert!(cmd.starts_with("sh -c '"));
    // the trimmed root, quoted, sits in the assignment
    assert!(cmd.contains("ROOT='\\''/home/me'\\''"));
    // depth clamps to 1..=30, rows to 1..=5000
    assert!(cmd.contains("MAXD=1;"));
    assert!(cmd.contains("MAXR=5000;"));
    assert!(cmd.contains("find not found"));
    assert!(cmd.contains("git not found on remote"));
}

#[test]
fn scan_command_keeps_in_range_bounds() {
    let cmd = remote_detect_command("/root", 7, 100);
    assert!(cmd.contains("MAXD=7;"));
    assert!(cmd.contains("MAXR=100;"));
}

#[test]
fn row_parsing() {
    let row = parse_detect_row("/srv/app\tgit@h:a.git\tapp").unwrap();
    assert_eq!(row.path, "/srv/app");
    assert_eq!(row.origin_url.as_deref(), Some("git@h:a.git"));
    assert_eq!(row.name.as_deref(), Some("app"));

    let no_origin = parse_detect_row("/srv/b\t\tb").unwrap();
    assert_eq!(no_origin.origin_url, None);
    assert_eq!(no_origin.name.as_deref(), Some("b"));

    assert!(parse_detect_row("   ").is_none());
    assert!(parse_detect_row("\t\t").is_none());

    // the row is trimmed before splitting, so a leading tab does not
    // produce an empty first field
    let trimmed_first = parse_detect_row("\torigin\tname").unwrap();
    assert_eq!(trimmed_first.path, "origin");
    assert_eq!(trimmed_first.origin_url.as_deref(), Some("name"));
    assert_eq!(trimmed_first.name, None);
}

#[test]
fn output_parsing_deduplicates_by_first_path() {
    let out = "\
/srv/app\tgit@h:a.git\tapp\n\
/srv/app\tother\tapp2\n\
\n\
/srv/lib\t\tlib\n";
    let rows = parse_detect_output(out);
    assert_eq!(rows.len(), 2);
    assert_eq!(rows[0].path, "/srv/app");
    assert_eq!(rows[0].origin_url.as_deref(), Some("git@h:a.git"));
    assert_eq!(rows[1].path, "/srv/lib");
    assert_eq!(rows[1].origin_url, None);
    assert_eq!(rows[1].name.as_deref(), Some("lib"));
}
