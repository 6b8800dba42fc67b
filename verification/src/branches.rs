//! Branch listing from the bare list of remote heads: only
//! `refs/heads/*` entries contribute, duplicate names collapse to one
//! entry, and the output is lexicographically sorted.

use vstd::prelude::*;
use vstd::string::*;
use crate::model::{opt_str_view, StepResult};
use crate::probes::{pick_stderr_or_stdout, stderr_or_stdout};
use crate::text::{
    find_char, find_idx, lemma_find_idx, lemma_lex_antisym, lemma_lex_total, lemma_lex_trans,
    lex_le, lines_spec, split_lines, starts_with_spec, str_eq, str_le, strip_prefix_str,
    trim_spec, trim_str,
};

verus! {

/// The branch name one line of remote-heads output contributes, if any:
/// the part after the first tab must name a `refs/heads/*` reference,
/// and the name, trimmed, must not be empty.
pub open spec fn head_of_line(line: Seq<char>) -> Option<Seq<char>> {
    let i = find_idx(line, '\t');
    if i < line.len() {
        let r = line.subrange(i as int + 1, line.len() as int);
        if starts_with_spec(r, "refs/heads/"@) {
            let name = trim_spec(r.subrange("refs/heads/"@.len() as int, r.len() as int));
            if name.len() != 0 {
                Some(name)
            } else {
                None
            }
        } else {
            None
        }
    } else {
        None
    }
}

pub open spec fn heads_of_lines(lines: Seq<Seq<char>>) -> Seq<Seq<char>>
    decreases lines.len(),
{
    if lines.len() == 0 {
        Seq::empty()
    } else {
        (match head_of_line(lines[0]) {
            Some(n) => seq![n],
            None => Seq::empty(),
        }) + heads_of_lines(lines.drop_first())
    }
}

/// All branch names the remote-heads output contributes, in input order,
/// duplicates included.
pub open spec fn parsed_heads(out: Seq<char>) -> Seq<Seq<char>> {
    heads_of_lines(lines_spec(out))
}

proof fn lemma_heads_snoc(lines: Seq<Seq<char>>, l: Seq<char>)
    ensures
        heads_of_lines(lines.push(l)) == heads_of_lines(lines) + (match head_of_line(l) {
            Some(n) => seq![n],
            None => Seq::<Seq<char>>::empty(),
        }),
    decreases lines.len(),
{
    let unit = (match head_of_line(l) {
        Some(n) => seq![n],
        None => Seq::<Seq<char>>::empty(),
    });
    if lines.len() == 0 {
        assert(lines.push(l).drop_first() =~= Seq::<Seq<char>>::empty());
        assert(lines.push(l)[0] == l);
        assert(heads_of_lines(lines.push(l)) == (match head_of_line(lines.push(l)[0]) {
            Some(n) => seq![n],
            None => Seq::<Seq<char>>::empty(),
        }) + heads_of_lines(lines.push(l).drop_first()));
        assert(heads_of_lines(lines.push(l).drop_first()) == heads_of_lines(
            Seq::<Seq<char>>::empty(),
        ));
        assert(heads_of_lines(lines.push(l)) =~= heads_of_lines(lines) + unit);
    } else {
        assert(lines.push(l)[0] == lines[0]);
        assert(lines.push(l).drop_first() =~= lines.drop_first().push(l));
        lemma_heads_snoc(lines.drop_first(), l);
        assert(heads_of_lines(lines.push(l)) == (match head_of_line(lines[0]) {
            Some(n) => seq![n],
            None => Seq::<Seq<char>>::empty(),
        }) + (heads_of_lines(lines.drop_first()) + unit));
        assert(heads_of_lines(lines.push(l)) =~= heads_of_lines(lines) + unit);
    }
}

/// Strictly ascending in lexicographic order; in particular, no
/// duplicates.
pub open spec fn strict_sorted(s: Seq<Seq<char>>) -> bool {
    forall|i: int, j: int|
        0 <= i < j < s.len() ==> (#[trigger] lex_le(s[i], s[j])) && s[i] != s[j]
}

proof fn lemma_strict_sorted_at(s: Seq<Seq<char>>, i: int, k: int)
    requires
        strict_sorted(s),
        0 <= i < k < s.len(),
    ensures
        lex_le(s[i], s[k]),
        s[i] != s[k],
{
    assert(0 <= i < k < s.len() ==> lex_le(s[i], s[k]) && s[i] != s[k]);
}

/// Insert a name into a strictly sorted list unless it is already there.
fn insert_sorted_unique(acc: &mut Vec<String>, x: String)
    requires
        strict_sorted(old(acc).deep_view()),
    ensures
        strict_sorted(final(acc).deep_view()),
        forall|b: Seq<char>|
            final(acc).deep_view().contains(b) <==> (old(acc).deep_view().contains(b) || b == x@),
{
    let n = acc.len();
    let mut j: usize = 0;
    while j < n && str_le(acc[j].as_str(), x.as_str()) && !str_eq(acc[j].as_str(), x.as_str())
        invariant
            0 <= j <= n,
            n == acc@.len(),
            acc.deep_view() == old(acc).deep_view(),
            strict_sorted(acc.deep_view()),
            forall|k: int|
                0 <= k < j ==> lex_le(#[trigger] acc.deep_view()[k], x@) && acc.deep_view()[k]
                    != x@,
        decreases n - j,
    {
        proof {
            assert(acc.deep_view()[j as int] == acc@[j as int]@);
        }
        j = j + 1;
    }
    let ghost pre = acc.deep_view();
    if j == n {
        // Greater than everything present, so new.
        let ghost xv = x@;
        crate::model::push_string(acc, x);
        proof {
            assert(acc.deep_view() =~= pre.push(xv));
            assert forall|i: int, k: int|
                0 <= i < k < acc.deep_view().len() implies lex_le(
                acc.deep_view()[i],
                acc.deep_view()[k],
            ) && acc.deep_view()[i] != acc.deep_view()[k] by {
                assert(acc.deep_view()[i] == pre[i]);
                if k == pre.len() {
                    assert(acc.deep_view()[k] == xv);
                    assert(lex_le(pre[i], xv) && pre[i] != xv);
                } else {
                    assert(acc.deep_view()[k] == pre[k]);
                    lemma_strict_sorted_at(pre, i, k);
                }
            }
            assert forall|b: Seq<char>|
                acc.deep_view().contains(b) <==> (pre.contains(b) || b == xv) by {
                if pre.contains(b) {
                    let w = choose|w: int| 0 <= w < pre.len() && pre[w] == b;
                    assert(acc.deep_view()[w] == b);
                }
                if b == xv {
                    assert(acc.deep_view()[pre.len() as int] == b);
                }
                if acc.deep_view().contains(b) {
                    let w = choose|w: int|
                        0 <= w < acc.deep_view().len() && acc.deep_view()[w] == b;
                    if w < pre.len() {
                        assert(pre[w] == b);
                    }
                }
            }
        }
        return ;
    }
    proof {
        assert(acc.deep_view()[j as int] == acc@[j as int]@);
    }
    if str_eq(acc[j].as_str(), x.as_str()) {
        // Already present.
        proof {
            assert(acc.deep_view().contains(x@)) by {
                assert(acc.deep_view()[j as int] == x@);
            }
        }
        return ;
    }
    // The first position whose entry is not below x: insert here.
    proof {
        lemma_lex_total(pre[j as int], x@);
    }
    let ghost xv = x@;
    acc.insert(j, x);
    proof {
        assert forall|k: int| 0 <= k < acc.deep_view().len() implies acc.deep_view()[k] == (if k
            < j {
            pre[k]
        } else if k == j {
            xv
        } else {
            pre[k - 1]
        }) by {
            assert(acc@ == old(acc)@.insert(j as int, acc@[j as int]));
        }
        assert(!lex_le(pre[j as int], xv));
        assert(lex_le(xv, pre[j as int]) && xv != pre[j as int]);
        assert forall|i: int, k: int|
            0 <= i < k < acc.deep_view().len() implies lex_le(
            acc.deep_view()[i],
            acc.deep_view()[k],
        ) && acc.deep_view()[i] != acc.deep_view()[k] by {
            let a = acc.deep_view()[i];
            let b = acc.deep_view()[k];
            if k == j {
                assert(a == pre[i] && b == xv);
                assert(lex_le(pre[i], xv) && pre[i] != xv);
            } else if i == j {
                // x goes strictly below the entry it displaced and all after.
                assert(a == xv && b == pre[k - 1]);
                if k - 1 > j {
                    lemma_strict_sorted_at(pre, j as int, k - 1);
                    lemma_lex_trans(xv, pre[j as int], pre[k - 1]);
                    if xv == pre[k - 1] {
                        lemma_lex_antisym(xv, pre[j as int]);
                    }
                }
            } else if i < j && k < j {
                assert(a == pre[i] && b == pre[k]);
                lemma_strict_sorted_at(pre, i, k);
            } else if i < j && k > j {
                assert(a == pre[i] && b == pre[k - 1]);
                lemma_strict_sorted_at(pre, i, k - 1);
            } else {
                assert(i > j && k > j);
                assert(a == pre[i - 1] && b == pre[k - 1]);
                lemma_strict_sorted_at(pre, i - 1, k - 1);
            }
        }
        assert forall|b: Seq<char>|
            acc.deep_view().contains(b) <==> (pre.contains(b) || b == xv) by {
            if pre.contains(b) {
                let w = choose|w: int| 0 <= w < pre.len() && pre[w] == b;
                if w < j {
                    assert(acc.deep_view()[w] == b);
                } else {
                    assert(acc.deep_view()[w + 1] == b);
                }
            }
            if b == xv {
                assert(acc.deep_view()[j as int] == b);
            }
            if acc.deep_view().contains(b) {
                let w = choose|w: int| 0 <= w < acc.deep_view().len() && acc.deep_view()[w] == b;
                if w < j {
                    assert(pre[w] == b);
                } else if w > j {
                    assert(pre[w - 1] == b);
                }
            }
        }
    }
}

/// The branch name one line contributes, if any.
fn head_of_line_exec(line: &str) -> (r: Option<String>)
    ensures
        opt_str_view(r) == head_of_line(line@),
{
    let n = line.unicode_len();
    let i = find_char(line, '\t');
    proof {
        lemma_find_idx(line@, '\t');
    }
    if i >= n {
        return None;
    }
    let rest = line.substring_char(i + 1, n);
    match strip_prefix_str(rest, "refs/heads/") {
        Some(tail) => {
            let name = trim_str(tail.as_str());
            if name.as_str().unicode_len() != 0 {
                Some(name)
            } else {
                None
            }
        },
        None => None,
    }
}

/// Parse remote-heads output. LAW: only `refs/heads/*` entries
/// contribute, duplicate branch names collapse to one entry, and the
/// output is strictly lexicographically sorted.
pub fn parse_remote_heads(stdout: &str) -> (r: Vec<String>)
    ensures
        strict_sorted(r.deep_view()),
        forall|b: Seq<char>| r.deep_view().contains(b) <==> parsed_heads(stdout@).contains(b),
{
    let lines = split_lines(stdout);
    let n = lines.len();
    let mut acc: Vec<String> = Vec::new();
    proof {
        assert(acc.deep_view() =~= Seq::<Seq<char>>::empty());
        assert(lines.deep_view().take(0) =~= Seq::<Seq<char>>::empty());
        assert(heads_of_lines(lines.deep_view().take(0)) =~= Seq::<Seq<char>>::empty());
    }
    let mut i: usize = 0;
    while i < n
        invariant
            0 <= i <= n,
            n == lines@.len(),
            lines.deep_view() == lines_spec(stdout@),
            strict_sorted(acc.deep_view()),
            forall|b: Seq<char>|
                acc.deep_view().contains(b) <==> heads_of_lines(
                    lines.deep_view().take(i as int),
                ).contains(b),
        decreases n - i,
    {
        let ghost prefix = lines.deep_view().take(i as int);
        proof {
            assert(lines.deep_view().take(i + 1) =~= prefix.push(lines.deep_view()[i as int]));
            lemma_heads_snoc(prefix, lines.deep_view()[i as int]);
            assert(lines.deep_view()[i as int] == lines@[i as int]@);
        }
        match head_of_line_exec(lines[i].as_str()) {
            Some(name) => {
                let ghost nv = name@;
                insert_sorted_unique(&mut acc, name);
                proof {
                    let hs = heads_of_lines(lines.deep_view().take(i + 1));
                    let hp = heads_of_lines(prefix);
                    assert(hs == hp + seq![nv]);
                    assert forall|b: Seq<char>| acc.deep_view().contains(b) <==> hs.contains(
                        b,
                    ) by {
                        if hp.contains(b) {
                            let w = choose|w: int| 0 <= w < hp.len() && hp[w] == b;
                            assert(hs[w] == b);
                        }
                        if b == nv {
                            assert(hs[hp.len() as int] == b);
                        }
                        if hs.contains(b) {
                            let w = choose|w: int| 0 <= w < hs.len() && hs[w] == b;
                            if w < hp.len() {
                                assert(hp[w] == b);
                            } else {
                                assert(b == nv);
                            }
                        }
                    }
                }
            },
            None => {
                proof {
                    assert(heads_of_lines(lines.deep_view().take(i + 1)) =~= heads_of_lines(
                        prefix,
                    ));
                }
            },
        }
        i = i + 1;
    }
    proof {
        assert(lines.deep_view().take(n as int) =~= lines.deep_view());
    }
    acc
}

/// What one branch-listing query yields.
pub struct BranchListWire {
    pub ok: bool,
    pub branches: Vec<String>,
    pub stderr: Option<String>,
}

/// Interpret a captured `ls-remote --heads` query: on failure, no
/// branches and the surfaced stream; on success, the parsed, sorted,
/// deduplicated names.
pub fn list_branches_result(step: &StepResult) -> (r: BranchListWire)
    ensures
        !step@.ok ==> (!r.ok && r.branches.deep_view().len() == 0 && opt_str_view(r.stderr)
            == Some(stderr_or_stdout(step@.stderr, step@.stdout))),
        step@.ok ==> (r.ok && r.stderr is None && strict_sorted(r.branches.deep_view()) && (
        forall|b: Seq<char>|
            r.branches.deep_view().contains(b) <==> parsed_heads(step@.stdout).contains(b))),
{
    if !step.ok {
        let msg = pick_stderr_or_stdout(step);
        let branches: Vec<String> = Vec::new();
        proof {
            assert(branches.deep_view() =~= Seq::<Seq<char>>::empty());
        }
        BranchListWire { ok: false, branches, stderr: Some(msg) }
    } else {
        let branches = parse_remote_heads(step.stdout.as_str());
        BranchListWire { ok: true, branches, stderr: None }
    }
}

} // verus!
