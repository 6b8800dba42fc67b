//! Read-only interpretations of captured step results: version queries,
//! tool checks, working-tree cleanliness, and the configured origin URL.

use vstd::prelude::*;
use vstd::string::*;
use crate::model::{opt_str_view, StepResult};
use crate::text::{is_blank, trim_spec, trim_str};

verus! {

/// The result of probing for one external tool.
pub struct ToolCheck {
    pub found: bool,
    pub path: Option<String>,
    pub version: Option<String>,
    pub ok: bool,
    pub error: Option<String>,
}

/// Mathematical image of a `ToolCheck`.
#[verifier::ext_equal]
pub ghost struct ToolCheckView {
    pub found: bool,
    pub path: Option<Seq<char>>,
    pub version: Option<Seq<char>>,
    pub ok: bool,
    pub error: Option<Seq<char>>,
}

impl View for ToolCheck {
    type V = ToolCheckView;

    open spec fn view(&self) -> ToolCheckView {
        ToolCheckView {
            found: self.found,
            path: opt_str_view(self.path),
            version: opt_str_view(self.version),
            ok: self.ok,
            error: opt_str_view(self.error),
        }
    }
}

/// Whichever of the two streams is not blank, preferring standard error;
/// the usual way a failed command's cause is surfaced.
pub open spec fn stderr_or_stdout(stderr: Seq<char>, stdout: Seq<char>) -> Seq<char> {
    if !is_blank(stderr) {
        stderr
    } else {
        stdout
    }
}

/// Pick the non-blank stream of a captured step, standard error first.
pub fn pick_stderr_or_stdout(step: &StepResult) -> (r: String)
    ensures
        r@ == stderr_or_stdout(step@.stderr, step@.stdout),
{
    let t = trim_str(step.stderr.as_str());
    if t.as_str().unicode_len() != 0 {
        step.stderr.clone()
    } else {
        step.stdout.clone()
    }
}

/// What a version query reported: trimmed standard output when present,
/// else trimmed standard error, else nothing.
pub open spec fn version_of(s: crate::model::StepView) -> Option<Seq<char>> {
    if !is_blank(s.stdout) {
        Some(trim_spec(s.stdout))
    } else if !is_blank(s.stderr) {
        Some(trim_spec(s.stderr))
    } else {
        None
    }
}

/// What a failed version query's error is: trimmed standard error when
/// present, else trimmed standard output, else a generic note. Nothing
/// when the query succeeded.
pub open spec fn version_err_of(s: crate::model::StepView) -> Option<Seq<char>> {
    if s.ok {
        None
    } else if !is_blank(s.stderr) {
        Some(trim_spec(s.stderr))
    } else if !is_blank(s.stdout) {
        Some(trim_spec(s.stdout))
    } else {
        Some("command failed"@)
    }
}

/// Interpret a captured version query: success flag, reported version,
/// and error text.
pub fn run_version(step: &StepResult) -> (r: (bool, Option<String>, Option<String>))
    ensures
        r.0 == step@.ok,
        opt_str_view(r.1) == version_of(step@),
        opt_str_view(r.2) == version_err_of(step@),
{
    let so = trim_str(step.stdout.as_str());
    let se = trim_str(step.stderr.as_str());
    let has_stdout = so.as_str().unicode_len() != 0;
    let has_stderr = se.as_str().unicode_len() != 0;
    let ver = if has_stdout {
        Some(so.clone())
    } else if has_stderr {
        Some(se.clone())
    } else {
        None
    };
    let err = if step.ok {
        None
    } else if has_stderr {
        Some(se)
    } else if has_stdout {
        Some(so)
    } else {
        Some(String::from_str("command failed"))
    };
    (step.ok, ver, err)
}

/// What a tool check reports when resolution found nothing.
pub open spec fn tool_missing(base_name: Seq<char>) -> ToolCheckView {
    ToolCheckView {
        found: false,
        path: None,
        version: None,
        ok: false,
        error: Some(base_name + " not found"@),
    }
}

/// What a tool check reports for a resolved tool and its captured
/// version query.
pub open spec fn tool_checked(path: Seq<char>, s: crate::model::StepView) -> ToolCheckView {
    ToolCheckView {
        found: true,
        path: Some(path),
        version: version_of(s),
        ok: s.ok,
        error: version_err_of(s),
    }
}

/// Assemble the check of one tool: either the resolved path with its
/// interpreted version query, or a not-found report.
pub fn check_tool(base_name: &str, resolved: Option<(String, StepResult)>) -> (r: ToolCheck)
    ensures
        ({
            match resolved {
                Some(pair) => r@ == tool_checked(pair.0@, pair.1@),
                None => r@ == tool_missing(base_name@),
            }
        }),
{
    match resolved {
        Some(pair) => {
            let (path, step) = pair;
            let (ok, version, error) = run_version(&step);
            let r = ToolCheck { found: true, path: Some(path), version, ok, error };
            proof {
                assert(r@ =~= tool_checked(r.path->0@, step@));
            }
            r
        },
        None => {
            let mut e = base_name.to_owned();
            e.append(" not found");
            let r = ToolCheck { found: false, path: None, version: None, ok: false, error: Some(e) };
            proof {
                assert(r@ =~= tool_missing(base_name@));
            }
            r
        },
    }
}

/// Interpret a captured porcelain status query: a blank output means the
/// tree is clean; a query that failed to run is an error carrying its
/// standard error.
pub fn git_status_clean(step: &StepResult) -> (r: Result<bool, String>)
    ensures
        step@.ok ==> (r matches Ok(b) && b == is_blank(step@.stdout)),
        !step@.ok ==> (r matches Err(e) && e@ == "git status failed: "@ + step@.stderr),
{
    if !step.ok {
        let mut e = String::from_str("git status failed: ");
        e.append(step.stderr.as_str());
        proof {
            assert(e@ =~= "git status failed: "@ + step@.stderr);
        }
        Err(e)
    } else {
        let t = trim_str(step.stdout.as_str());
        Ok(t.as_str().unicode_len() == 0)
    }
}

/// Interpret a captured `remote get-url origin` query: the trimmed URL,
/// or nothing when the query failed or reported none.
pub fn git_remote_origin_url(step: &StepResult) -> (r: Option<String>)
    ensures
        !step@.ok ==> r is None,
        step@.ok && is_blank(step@.stdout) ==> r is None,
        step@.ok && !is_blank(step@.stdout) ==> (r matches Some(u) && u@ == trim_spec(
            step@.stdout,
        )),
{
    if !step.ok {
        return None;
    }
    let t = trim_str(step.stdout.as_str());
    if t.as_str().unicode_len() == 0 {
        None
    } else {
        Some(t)
    }
}

} // verus!
