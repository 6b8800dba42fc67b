//! Normalization of user-supplied path input: wrapping quotes are
//! stripped and a leading tilde is expanded from the caller-supplied home
//! directories.

use vstd::prelude::*;
use vstd::string::*;
use crate::text::{starts_with, starts_with_spec, str_eq, trim_spec, trim_str};

verus! {

/// What stripping wrapping quotes yields: the trimmed input; when that
/// is wrapped in a matching pair of double or single quotes, the inside,
/// trimmed again.
pub open spec fn strip_quotes_spec(s: Seq<char>) -> Seq<char> {
    let t = trim_spec(s);
    if t.len() >= 2 && ((t[0] == '"' && t[t.len() - 1] == '"') || (t[0] == '\'' && t[t.len() - 1]
        == '\'')) {
        trim_spec(t.subrange(1, t.len() - 1))
    } else {
        t
    }
}

/// Strip one pair of wrapping quotes.
pub fn strip_wrapping_quotes(s: &str) -> (r: String)
    ensures
        r@ == strip_quotes_spec(s@),
{
    let t = trim_str(s);
    let n = t.as_str().unicode_len();
    if n >= 2 {
        let first = t.as_str().get_char(0);
        let last = t.as_str().get_char(n - 1);
        if (first == '"' && last == '"') || (first == '\'' && last == '\'') {
            let inner = t.as_str().substring_char(1, n - 1);
            return trim_str(inner);
        }
    }
    t
}

/// What tilde expansion yields: a trimmed input of the form `~`, `~/...`
/// or `~\...` has the tilde replaced by the home directory (or, failing
/// that, the user profile directory); anything else stays as trimmed.
pub open spec fn expand_tilde_spec(
    s: Seq<char>,
    home: Option<Seq<char>>,
    userprofile: Option<Seq<char>>,
) -> Seq<char> {
    let t = trim_spec(s);
    if t == "~"@ || starts_with_spec(t, "~/"@) || starts_with_spec(t, "~\\"@) {
        match home {
            Some(h) => if t == "~"@ {
                h
            } else {
                h + t.subrange(1, t.len() as int)
            },
            None => match userprofile {
                Some(u) => if t == "~"@ {
                    u
                } else {
                    u + t.subrange(1, t.len() as int)
                },
                None => t,
            },
        }
    } else {
        t
    }
}

/// Expand a leading tilde from the supplied home directories.
pub fn expand_tilde(s: &str, home: &Option<String>, userprofile: &Option<String>) -> (r: String)
    ensures
        r@ == expand_tilde_spec(s@, crate::model::opt_str_view(*home), crate::model::opt_str_view(
            *userprofile,
        )),
{
    let t = trim_str(s);
    let is_bare = str_eq(t.as_str(), "~");
    let tilded = is_bare || starts_with(t.as_str(), "~/") || starts_with(t.as_str(), "~\\");
    if !tilded {
        return t;
    }
    let base = match home {
        Some(h) => Some(h.clone()),
        None => match userprofile {
            Some(u) => Some(u.clone()),
            None => None,
        },
    };
    match base {
        Some(b) => {
            if is_bare {
                b
            } else {
                let mut r = b;
                proof {
                    assert(t@.len() >= 1) by {
                        reveal_strlit("~/");
                        reveal_strlit("~\\");
                    }
                }
                let rest = t.as_str().substring_char(1, t.as_str().unicode_len());
                r.append(rest);
                r
            }
        },
        None => t,
    }
}

/// Normalize user path input: strip wrapping quotes, then expand a
/// leading tilde.
pub fn normalize_path_input(
    s: &str,
    home: &Option<String>,
    userprofile: &Option<String>,
) -> (r: String)
    ensures
        r@ == expand_tilde_spec(
            strip_quotes_spec(s@),
            crate::model::opt_str_view(*home),
            crate::model::opt_str_view(*userprofile),
        ),
{
    let x = strip_wrapping_quotes(s);
    expand_tilde(x.as_str(), home, userprofile)
}

} // verus!
