//! Repository discovery support: the quoted remote scan script, and the
//! parsing of its tab-separated output — first occurrence of each path
//! wins, blank fields become absent ones.

use vstd::prelude::*;
use vstd::string::*;
use crate::model::{opt_str_view, StepResult};
use crate::quote::{shell_escape_posix_single, shell_escape_spec};
use crate::text::{
    dec_spec, find_char, find_idx, lemma_find_idx, lines_spec, split_lines, str_eq, trim_spec,
    trim_str, u64_to_string,
};

verus! {

/// One discovered repository.
pub struct DetectedRepo {
    pub path: String,
    pub origin_url: Option<String>,
    pub name: Option<String>,
}

/// Mathematical image of a discovered repository.
#[verifier::ext_equal]
pub ghost struct RepoView {
    pub path: Seq<char>,
    pub origin_url: Option<Seq<char>>,
    pub name: Option<Seq<char>>,
}

impl View for DetectedRepo {
    type V = RepoView;

    open spec fn view(&self) -> RepoView {
        RepoView {
            path: self.path@,
            origin_url: opt_str_view(self.origin_url),
            name: opt_str_view(self.name),
        }
    }
}

impl DeepView for DetectedRepo {
    type V = RepoView;

    open spec fn deep_view(&self) -> RepoView {
        self.view()
    }
}

/// Clamp to a closed range.
pub fn clamp_u8(v: u8, lo: u8, hi: u8) -> (r: u8)
    requires
        lo <= hi,
    ensures
        r == (if v < lo {
            lo
        } else if v > hi {
            hi
        } else {
            v
        }),
{
    if v < lo {
        lo
    } else if v > hi {
        hi
    } else {
        v
    }
}

/// Clamp to a closed range.
pub fn clamp_u16(v: u16, lo: u16, hi: u16) -> (r: u16)
    requires
        lo <= hi,
    ensures
        r == (if v < lo {
            lo
        } else if v > hi {
            hi
        } else {
            v
        }),
{
    if v < lo {
        lo
    } else if v > hi {
        hi
    } else {
        v
    }
}

/// The fixed tail of the scan script: resolve find and git, then walk the
/// tree for git markers and print one path, origin, name row per
/// repository, up to the row bound.
pub open spec fn detect_script_tail() -> Seq<char> {
    "\n\nif [ -z \"$ROOT\" ]; then\n  ROOT=\"$HOME\";\nfi\n\nif ! command -v find >/dev/null 2>&1; then\n  echo \"find not found\" >&2\n  exit 4\nfi\n\nGIT_BIN=\"\"\nif command -v git >/dev/null 2>&1; then\n  GIT_BIN=\"$(command -v git)\"\nfi\n\nif [ -z \"$GIT_BIN\" ]; then\n  echo \"git not found on remote\" >&2\n  exit 5\nfi\n\ncount=0\nfind \"$ROOT\" -maxdepth \"$MAXD\" -type d -name .git 2>/dev/null | while IFS= read -r g; do\n  repo=\"${g%/.git}\"\n  name=\"$(basename \"$repo\")\"\n  origin=\"$(\"$GIT_BIN\" -C \"$repo\" remote get-url origin 2>/dev/null || true)\"\n  printf '%s\\t%s\\t%s\\n' \"$repo\" \"$origin\" \"$name\"\n  count=$((count+1))\n  if [ \"$count\" -ge \"$MAXR\" ]; then\n    break\n  fi\ndone\n"@
}

/// The scan script: the quoted root and the two bounds, then the fixed
/// tail.
pub open spec fn detect_script_spec(root: Seq<char>, md: u8, mr: u16) -> Seq<char> {
    "\nROOT="@ + shell_escape_spec(root) + ";\nMAXD="@ + dec_spec(md as nat) + ";\nMAXR="@
        + dec_spec(mr as nat) + ";"@ + detect_script_tail()
}

/// The remote command that runs the scan: the root trimmed, the depth
/// clamped to 1..=30 and the row bound to 1..=5000, the script quoted
/// behind `sh -c`.
pub fn remote_detect_command(root_path: &str, max_depth: u8, max_repos: u16) -> (r: String)
    ensures
        r@ == "sh -c "@ + shell_escape_spec(detect_script_spec(
            trim_spec(root_path@),
            if max_depth < 1 {
                1
            } else if max_depth > 30 {
                30
            } else {
                max_depth
            },
            if max_repos < 1 {
                1
            } else if max_repos > 5000 {
                5000
            } else {
                max_repos
            },
        )),
{
    let md = clamp_u8(max_depth, 1, 30);
    let mr = clamp_u16(max_repos, 1, 5000);
    let rp = trim_str(root_path);
    let mut script = String::from_str("\nROOT=");
    let q = shell_escape_posix_single(rp.as_str());
    script.append(q.as_str());
    script.append(";\nMAXD=");
    let mds = u64_to_string(md as u64);
    script.append(mds.as_str());
    script.append(";\nMAXR=");
    let mrs = u64_to_string(mr as u64);
    script.append(mrs.as_str());
    script.append(";");
    script.append(
        "\n\nif [ -z \"$ROOT\" ]; then\n  ROOT=\"$HOME\";\nfi\n\nif ! command -v find >/dev/null 2>&1; then\n  echo \"find not found\" >&2\n  exit 4\nfi\n\nGIT_BIN=\"\"\nif command -v git >/dev/null 2>&1; then\n  GIT_BIN=\"$(command -v git)\"\nfi\n\nif [ -z \"$GIT_BIN\" ]; then\n  echo \"git not found on remote\" >&2\n  exit 5\nfi\n\ncount=0\nfind \"$ROOT\" -maxdepth \"$MAXD\" -type d -name .git 2>/dev/null | while IFS= read -r g; do\n  repo=\"${g%/.git}\"\n  name=\"$(basename \"$repo\")\"\n  origin=\"$(\"$GIT_BIN\" -C \"$repo\" remote get-url origin 2>/dev/null || true)\"\n  printf '%s\\t%s\\t%s\\n' \"$repo\" \"$origin\" \"$name\"\n  count=$((count+1))\n  if [ \"$count\" -ge \"$MAXR\" ]; then\n    break\n  fi\ndone\n",
    );
    proof {
        assert(script@ =~= detect_script_spec(trim_spec(root_path@), md, mr));
    }
    let mut r = String::from_str("sh -c ");
    let qs = shell_escape_posix_single(script.as_str());
    r.append(qs.as_str());
    proof {
        assert(r@ =~= "sh -c "@ + shell_escape_spec(script@));
    }
    r
}

/// A row split at its first two tabs; missing fields are empty.
pub open spec fn split3_tab_spec(s: Seq<char>) -> (Seq<char>, Seq<char>, Seq<char>) {
    let i = find_idx(s, '\t');
    if i >= s.len() {
        (s, Seq::empty(), Seq::empty())
    } else {
        let rest = s.subrange(i as int + 1, s.len() as int);
        let j = find_idx(rest, '\t');
        if j >= rest.len() {
            (s.subrange(0, i as int), rest, Seq::empty())
        } else {
            (
                s.subrange(0, i as int),
                rest.subrange(0, j as int),
                rest.subrange(j as int + 1, rest.len() as int),
            )
        }
    }
}

/// Split a row at its first two tabs.
pub fn split3_tab(s: &str) -> (r: (String, String, String))
    ensures
        (r.0@, r.1@, r.2@) == split3_tab_spec(s@),
{
    let n = s.unicode_len();
    let i = find_char(s, '\t');
    proof {
        lemma_find_idx(s@, '\t');
    }
    if i >= n {
        return (s.to_owned(), String::new(), String::new());
    }
    let rest = s.substring_char(i + 1, n);
    let m = rest.unicode_len();
    let j = find_char(rest, '\t');
    proof {
        lemma_find_idx(rest@, '\t');
    }
    if j >= m {
        (s.substring_char(0, i).to_owned(), rest.to_owned(), String::new())
    } else {
        (
            s.substring_char(0, i).to_owned(),
            rest.substring_char(0, j).to_owned(),
            rest.substring_char(j + 1, m).to_owned(),
        )
    }
}

/// A blank field is absent.
pub open spec fn opt_field(s: Seq<char>) -> Option<Seq<char>> {
    if s.len() == 0 {
        None
    } else {
        Some(s)
    }
}

/// The repository one output row describes, if any: the row trimmed must
/// not be blank and its first field, trimmed, must not be blank either.
pub open spec fn row_of_line(line: Seq<char>) -> Option<RepoView> {
    let ln = trim_spec(line);
    if ln.len() == 0 {
        None
    } else {
        let (p0, p1, p2) = split3_tab_spec(ln);
        let path = trim_spec(p0);
        if path.len() == 0 {
            None
        } else {
            Some(RepoView {
                path,
                origin_url: opt_field(trim_spec(p1)),
                name: opt_field(trim_spec(p2)),
            })
        }
    }
}

/// Parse one row of scan output.
pub fn parse_detect_row(line: &str) -> (r: Option<DetectedRepo>)
    ensures
        ({
            match r {
                Some(row) => row_of_line(line@) == Some(row@),
                None => row_of_line(line@) is None,
            }
        }),
{
    let ln = trim_str(line);
    if ln.as_str().unicode_len() == 0 {
        return None;
    }
    let (p0, p1, p2) = split3_tab(ln.as_str());
    let path = trim_str(p0.as_str());
    if path.as_str().unicode_len() == 0 {
        return None;
    }
    let origin = trim_str(p1.as_str());
    let name = trim_str(p2.as_str());
    let row = DetectedRepo {
        path,
        origin_url: if origin.as_str().unicode_len() == 0 {
            None
        } else {
            Some(origin)
        },
        name: if name.as_str().unicode_len() == 0 {
            None
        } else {
            Some(name)
        },
    };
    proof {
        assert(row_of_line(line@) == Some(row@));
    }
    Some(row)
}

/// The repositories the scan output describes, one entry per path, the
/// first occurrence winning, in output order.
pub open spec fn detect_rows(lines: Seq<Seq<char>>, seen: Set<Seq<char>>) -> Seq<RepoView>
    decreases lines.len(),
{
    if lines.len() == 0 {
        Seq::empty()
    } else {
        let rest = lines.drop_first();
        match row_of_line(lines[0]) {
            Some(row) => if seen.contains(row.path) {
                detect_rows(rest, seen)
            } else {
                seq![row] + detect_rows(rest, seen.insert(row.path))
            },
            None => detect_rows(rest, seen),
        }
    }
}

/// The paths a list of rows covers.
pub open spec fn paths_of(rows: Seq<RepoView>) -> Set<Seq<char>> {
    Set::new(|p: Seq<char>| exists|k: int| 0 <= k < rows.len() && rows[k].path == p)
}

fn contains_path(rows: &Vec<DetectedRepo>, p: &str) -> (r: bool)
    ensures
        r == paths_of(rows.deep_view()).contains(p@),
{
    let n = rows.len();
    let mut i: usize = 0;
    while i < n
        invariant
            0 <= i <= n,
            n == rows@.len(),
            forall|k: int| 0 <= k < i ==> rows.deep_view()[k].path != p@,
        decreases n - i,
    {
        if str_eq(rows[i].path.as_str(), p) {
            proof {
                assert(rows.deep_view()[i as int].path == p@);
            }
            return true;
        }
        proof {
            assert(rows.deep_view()[i as int] == rows@[i as int]@);
        }
        i = i + 1;
    }
    proof {
        if paths_of(rows.deep_view()).contains(p@) {
            let k = choose|k: int|
                0 <= k < rows.deep_view().len() && rows.deep_view()[k].path == p@;
            assert(rows.deep_view()[k].path != p@);
        }
    }
    false
}

fn push_row(rows: &mut Vec<DetectedRepo>, row: DetectedRepo)
    ensures
        final(rows).deep_view() == old(rows).deep_view().push(row@),
{
    let ghost pre = rows@;
    rows.push(row);
    proof {
        assert forall|k: int| 0 <= k < rows.deep_view().len() implies rows.deep_view()[k]
            == pre.map(|i: int, x: DetectedRepo| x@).push(rows@[pre.len() as int]@)[k] by {
            if k < pre.len() {
                assert(rows@[k] == pre[k]);
            }
        }
        assert(old(rows).deep_view() =~= pre.map(|i: int, x: DetectedRepo| x@));
        assert(rows.deep_view() =~= old(rows).deep_view().push(rows@[pre.len() as int]@));
    }
}

/// Parse the whole scan output: one repository per distinct path, the
/// first row for each path winning, in output order.
pub fn parse_detect_output(stdout: &str) -> (r: Vec<DetectedRepo>)
    ensures
        r.deep_view() == detect_rows(lines_spec(stdout@), Set::empty()),
{
    let lines = split_lines(stdout);
    let n = lines.len();
    let mut rows: Vec<DetectedRepo> = Vec::new();
    proof {
        assert(rows.deep_view() =~= Seq::<RepoView>::empty());
        assert(paths_of(rows.deep_view()) =~= Set::<Seq<char>>::empty());
        assert(lines.deep_view().skip(0) =~= lines.deep_view());
    }
    let mut i: usize = 0;
    while i < n
        invariant
            0 <= i <= n,
            n == lines@.len(),
            lines.deep_view() == lines_spec(stdout@),
            detect_rows(lines_spec(stdout@), Set::empty()) == rows.deep_view() + detect_rows(
                lines.deep_view().skip(i as int),
                paths_of(rows.deep_view()),
            ),
        decreases n - i,
    {
        proof {
            assert(lines.deep_view().skip(i as int)[0] == lines.deep_view()[i as int]);
            assert(lines.deep_view().skip(i as int).drop_first() =~= lines.deep_view().skip(i + 1));
            assert(lines.deep_view()[i as int] == lines@[i as int]@);
        }
        let ghost pre_rows = rows.deep_view();
        match parse_detect_row(lines[i].as_str()) {
            Some(row) => {
                if !contains_path(&rows, row.path.as_str()) {
                    let ghost rv = row@;
                    push_row(&mut rows, row);
                    proof {
                        assert(paths_of(rows.deep_view()) =~= paths_of(pre_rows).insert(rv.path))
                            by {
                            assert forall|p: Seq<char>|
                                paths_of(rows.deep_view()).contains(p) <==> paths_of(
                                pre_rows,
                            ).insert(rv.path).contains(p) by {
                                if paths_of(rows.deep_view()).contains(p) {
                                    let k = choose|k: int|
                                        0 <= k < rows.deep_view().len() && rows.deep_view()[k].path
                                            == p;
                                    if k < pre_rows.len() {
                                        assert(pre_rows[k].path == p);
                                    }
                                }
                                if paths_of(pre_rows).contains(p) {
                                    let k = choose|k: int|
                                        0 <= k < pre_rows.len() && pre_rows[k].path == p;
                                    assert(rows.deep_view()[k].path == p);
                                }
                                if p == rv.path {
                                    assert(rows.deep_view()[pre_rows.len() as int].path == p);
                                }
                            }
                        }
                        assert(rows.deep_view() + detect_rows(
                            lines.deep_view().skip(i + 1),
                            paths_of(rows.deep_view()),
                        ) =~= detect_rows(lines_spec(stdout@), Set::empty()));
                    }
                } else {
                    proof {
                        assert(rows.deep_view() + detect_rows(
                            lines.deep_view().skip(i + 1),
                            paths_of(rows.deep_view()),
                        ) =~= detect_rows(lines_spec(stdout@), Set::empty()));
                    }
                }
            },
            None => {
                proof {
                    assert(rows.deep_view() + detect_rows(
                        lines.deep_view().skip(i + 1),
                        paths_of(rows.deep_view()),
                    ) =~= detect_rows(lines_spec(stdout@), Set::empty()));
                }
            },
        }
        i = i + 1;
    }
    proof {
        assert(lines.deep_view().skip(n as int) =~= Seq::<Seq<char>>::empty());
        assert(rows.deep_view() =~= detect_rows(lines_spec(stdout@), Set::empty()));
    }
    rows
}

} // verus!
