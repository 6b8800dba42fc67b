//! Character-sequence utilities: trimming, equality, searching, splitting,
//! lexicographic order and decimal rendering.
//!
//! Every executable function here is specified against a direct mathematical
//! definition over `Seq<char>`. Whitespace means the ASCII whitespace
//! characters; all inputs the planner sees (command output, user paths) are
//! handled uniformly under that definition.

use vstd::prelude::*;
use vstd::string::*;

verus! {

/// ASCII whitespace.
pub open spec fn is_wsp(c: char) -> bool {
    c == ' ' || c == '\t' || c == '\n' || c == '\r' || c == '\u{b}' || c == '\u{c}'
}

pub open spec fn trim_front(s: Seq<char>) -> Seq<char>
    decreases s.len(),
{
    if s.len() == 0 {
        s
    } else if is_wsp(s[0]) {
        trim_front(s.drop_first())
    } else {
        s
    }
}

pub open spec fn trim_back(s: Seq<char>) -> Seq<char>
    decreases s.len(),
{
    if s.len() == 0 {
        s
    } else if is_wsp(s[s.len() - 1]) {
        trim_back(s.drop_last())
    } else {
        s
    }
}

/// What `trim` yields: the sequence with leading and trailing ASCII
/// whitespace removed.
pub open spec fn trim_spec(s: Seq<char>) -> Seq<char> {
    trim_back(trim_front(s))
}

/// A sequence is blank when trimming leaves nothing.
pub open spec fn is_blank(s: Seq<char>) -> bool {
    trim_spec(s).len() == 0
}

proof fn lemma_trim_front_subrange(s: Seq<char>, i: int)
    requires
        0 <= i <= s.len(),
        forall|k: int| 0 <= k < i ==> is_wsp(s[k]),
        i == s.len() || !is_wsp(s[i]),
    ensures
        trim_front(s) == s.subrange(i, s.len() as int),
    decreases i,
{
    if i == 0 {
        if s.len() == 0 || !is_wsp(s[0]) {
            assert(trim_front(s) == s);
            assert(s.subrange(0, s.len() as int) =~= s);
        }
    } else {
        assert(is_wsp(s[0]));
        let t = s.drop_first();
        lemma_trim_front_subrange(t, i - 1);
        assert(t.subrange(i - 1, t.len() as int) =~= s.subrange(i, s.len() as int));
    }
}

proof fn lemma_trim_back_subrange(s: Seq<char>, j: int)
    requires
        0 <= j <= s.len(),
        forall|k: int| j <= k < s.len() ==> is_wsp(s[k]),
        j == 0 || !is_wsp(s[j - 1]),
    ensures
        trim_back(s) == s.subrange(0, j),
    decreases s.len() - j,
{
    if j == s.len() {
        if s.len() == 0 || !is_wsp(s[s.len() - 1]) {
            assert(trim_back(s) == s);
            assert(s.subrange(0, s.len() as int) =~= s);
        }
    } else {
        assert(is_wsp(s[s.len() - 1]));
        let t = s.drop_last();
        lemma_trim_back_subrange(t, j);
        assert(t.subrange(0, j) =~= s.subrange(0, j));
    }
}

/// Trim leading and trailing ASCII whitespace.
pub fn trim_str(s: &str) -> (r: String)
    ensures
        r@ == trim_spec(s@),
{
    let n = s.unicode_len();
    let mut i: usize = 0;
    while i < n && is_wsp_char(s.get_char(i))
        invariant
            0 <= i <= n,
            n == s@.len(),
            forall|k: int| 0 <= k < i ==> is_wsp(s@[k]),
        decreases n - i,
    {
        i = i + 1;
    }
    let mut j: usize = n;
    while j > i && is_wsp_char(s.get_char(j - 1))
        invariant
            i <= j <= n,
            n == s@.len(),
            forall|k: int| 0 <= k < i ==> is_wsp(s@[k]),
            i == n || !is_wsp(s@[i as int]),
            forall|k: int| j <= k < n ==> is_wsp(s@[k]),
        decreases j,
    {
        j = j - 1;
    }
    let piece = s.substring_char(i, j);
    let r = piece.to_owned();
    proof {
        lemma_trim_front_subrange(s@, i as int);
        let t = s@.subrange(i as int, s@.len() as int);
        lemma_trim_back_subrange(t, j - i);
        assert(t.subrange(0, j - i) =~= s@.subrange(i as int, j as int));
        assert(r@ == trim_spec(s@));
    }
    r
}

/// Executable form of `is_wsp`.
pub fn is_wsp_char(c: char) -> (r: bool)
    ensures
        r == is_wsp(c),
{
    c == ' ' || c == '\t' || c == '\n' || c == '\r' || c == '\u{b}' || c == '\u{c}'
}

/// Character-sequence equality of two string slices.
pub fn str_eq(a: &str, b: &str) -> (r: bool)
    ensures
        r == (a@ == b@),
{
    let na = a.unicode_len();
    let nb = b.unicode_len();
    if na != nb {
        proof {
            assert(a@ != b@);
        }
        return false;
    }
    let mut i: usize = 0;
    while i < na
        invariant
            0 <= i <= na,
            na == a@.len(),
            na == b@.len(),
            forall|k: int| 0 <= k < i ==> a@[k] == b@[k],
        decreases na - i,
    {
        if a.get_char(i) != b.get_char(i) {
            proof {
                assert(a@[i as int] != b@[i as int]);
            }
            return false;
        }
        i = i + 1;
    }
    proof {
        assert(a@ =~= b@);
    }
    true
}

/// Index of the first occurrence of `c`, or the length when absent.
pub open spec fn find_idx(s: Seq<char>, c: char) -> nat
    decreases s.len(),
{
    if s.len() == 0 {
        0
    } else if s[0] == c {
        0
    } else {
        1 + find_idx(s.drop_first(), c)
    }
}

pub proof fn lemma_find_idx(s: Seq<char>, c: char)
    ensures
        0 <= find_idx(s, c) <= s.len(),
        find_idx(s, c) < s.len() ==> s[find_idx(s, c) as int] == c,
        forall|k: int| 0 <= k < find_idx(s, c) ==> s[k] != c,
    decreases s.len(),
{
    if s.len() > 0 && s[0] != c {
        lemma_find_idx(s.drop_first(), c);
        assert forall|k: int| 0 <= k < find_idx(s, c) implies s[k] != c by {
            if k > 0 {
                assert(s[k] == s.drop_first()[k - 1]);
            }
        }
    }
}

proof fn lemma_find_idx_is(s: Seq<char>, c: char, i: int)
    requires
        0 <= i <= s.len(),
        i < s.len() ==> s[i] == c,
        forall|k: int| 0 <= k < i ==> s[k] != c,
    ensures
        find_idx(s, c) == i,
    decreases i,
{
    if s.len() == 0 {
    } else if i == 0 {
        if s.len() > 0 && s[0] != c {
            lemma_find_idx(s.drop_first(), c);
        }
    } else {
        assert(s[0] != c);
        let t = s.drop_first();
        assert(forall|k: int| 0 <= k < i - 1 ==> t[k] != c);
        lemma_find_idx_is(t, c, i - 1);
    }
}

/// Index of the first occurrence of `c` in `s`, or `s` length when absent.
pub fn find_char(s: &str, c: char) -> (i: usize)
    ensures
        i == find_idx(s@, c),
{
    let n = s.unicode_len();
    let mut i: usize = 0;
    while i < n && s.get_char(i) != c
        invariant
            0 <= i <= n,
            n == s@.len(),
            forall|k: int| 0 <= k < i ==> s@[k] != c,
        decreases n - i,
    {
        i = i + 1;
    }
    proof {
        lemma_find_idx_is(s@, c, i as int);
    }
    i
}

/// Does `s` contain the character `c`?
pub fn contains_char(s: &str, c: char) -> (r: bool)
    ensures
        r == s@.contains(c),
{
    let i = find_char(s, c);
    let n = s.unicode_len();
    proof {
        lemma_find_idx(s@, c);
        if find_idx(s@, c) < s@.len() {
            assert(s@[find_idx(s@, c) as int] == c);
        } else {
            assert(forall|k: int| 0 <= k < s@.len() ==> s@[k] != c);
        }
    }
    i < n
}

/// `n` occurs as a contiguous run of `h` starting at `i`.
pub open spec fn has_substr_at(h: Seq<char>, n: Seq<char>, i: int) -> bool {
    0 <= i && i + n.len() <= h.len() && h.subrange(i, i + n.len()) == n
}

/// `n` occurs somewhere in `h`.
pub open spec fn has_substr(h: Seq<char>, n: Seq<char>) -> bool {
    exists|i: int| has_substr_at(h, n, i)
}

fn match_at(h: &str, n: &str, i: usize) -> (r: bool)
    requires
        i + n@.len() <= h@.len(),
    ensures
        r == has_substr_at(h@, n@, i as int),
{
    let hl = h.unicode_len();
    let nl = n.unicode_len();
    let mut j: usize = 0;
    while j < nl && h.get_char(i + j) == n.get_char(j)
        invariant
            0 <= j <= nl,
            nl == n@.len(),
            hl == h@.len(),
            i + nl <= hl,
            forall|k: int| 0 <= k < j ==> h@[i + k] == n@[k],
        decreases nl - j,
    {
        j = j + 1;
    }
    if j == nl {
        proof {
            assert(h@.subrange(i as int, i + nl) =~= n@);
        }
        true
    } else {
        proof {
            if has_substr_at(h@, n@, i as int) {
                assert(h@.subrange(i as int, i + nl)[j as int] == h@[i + j]);
            }
        }
        false
    }
}

/// Substring search.
pub fn contains_substr(h: &str, n: &str) -> (r: bool)
    ensures
        r == has_substr(h@, n@),
{
    let hl = h.unicode_len();
    let nl = n.unicode_len();
    if nl > hl {
        proof {
            assert(forall|i: int| !has_substr_at(h@, n@, i));
        }
        return false;
    }
    if nl == 0 {
        proof {
            assert(h@.subrange(0, 0) =~= n@);
            assert(has_substr_at(h@, n@, 0));
        }
        return true;
    }
    let mut i: usize = 0;
    while i <= hl - nl
        invariant
            0 < nl <= hl,
            hl == h@.len(),
            nl == n@.len(),
            0 <= i <= hl - nl + 1,
            forall|k: int| 0 <= k < i ==> !has_substr_at(h@, n@, k),
        decreases hl - nl + 1 - i,
    {
        if match_at(h, n, i) {
            return true;
        }
        i = i + 1;
    }
    proof {
        assert forall|k: int| !has_substr_at(h@, n@, k) by {
            if has_substr_at(h@, n@, k) {
                assert(0 <= k <= hl - nl);
            }
        }
    }
    false
}

/// `p` is a prefix of `s`.
pub open spec fn starts_with_spec(s: Seq<char>, p: Seq<char>) -> bool {
    s.len() >= p.len() && s.subrange(0, p.len() as int) == p
}

/// Prefix test.
pub fn starts_with(s: &str, p: &str) -> (r: bool)
    ensures
        r == starts_with_spec(s@, p@),
{
    let sl = s.unicode_len();
    let pl = p.unicode_len();
    if sl < pl {
        return false;
    }
    let head = s.substring_char(0, pl);
    let r = str_eq(head, p);
    proof {
        if head@ == p@ {
            assert(s@.subrange(0, p@.len() as int) == p@);
        }
    }
    r
}

/// Remove a prefix when present.
pub fn strip_prefix_str(s: &str, p: &str) -> (r: Option<String>)
    ensures
        starts_with_spec(s@, p@) ==> (r is Some && r->0@ == s@.subrange(p@.len() as int, s@.len() as int)),
        !starts_with_spec(s@, p@) ==> r is None,
{
    if starts_with(s, p) {
        let rest = s.substring_char(p.unicode_len(), s.unicode_len());
        Some(rest.to_owned())
    } else {
        None
    }
}

/// Drop one trailing carriage return, as line splitting does before a
/// line feed.
pub open spec fn strip_cr(p: Seq<char>) -> Seq<char> {
    if p.len() > 0 && p[p.len() - 1] == '\r' {
        p.drop_last()
    } else {
        p
    }
}

/// The lines of `s`: split at line feeds, a carriage return directly before
/// a line feed removed, and no empty final line after a terminating line
/// feed.
pub open spec fn lines_spec(s: Seq<char>) -> Seq<Seq<char>>
    decreases s.len(),
    via lines_spec_dec
{
    if s.len() == 0 {
        Seq::empty()
    } else {
        let i = find_idx(s, '\n');
        if i == s.len() {
            seq![s]
        } else {
            seq![strip_cr(s.subrange(0, i as int))] + lines_spec(s.subrange(i as int + 1, s.len() as int))
        }
    }
}

#[via_fn]
proof fn lines_spec_dec(s: Seq<char>) {
    lemma_find_idx(s, '\n');
}

/// The first line of `s` (empty for an empty input).
pub open spec fn first_line_spec(s: Seq<char>) -> Seq<char> {
    let i = find_idx(s, '\n');
    if i < s.len() {
        strip_cr(s.subrange(0, i as int))
    } else {
        s
    }
}

/// Split into lines.
pub fn split_lines(s: &str) -> (r: Vec<String>)
    ensures
        r.deep_view() == lines_spec(s@),
{
    let mut r: Vec<String> = Vec::new();
    let mut rest: String = s.to_owned();
    while rest.as_str().unicode_len() != 0
        invariant
            lines_spec(s@) == r.deep_view() + lines_spec(rest@),
        decreases rest@.len(),
    {
        let n = rest.as_str().unicode_len();
        let i = find_char(rest.as_str(), '\n');
        proof {
            lemma_find_idx(rest@, '\n');
        }
        if i == n {
            let piece = rest.as_str().substring_char(0, n).to_owned();
            proof {
                assert(piece@ =~= rest@);
            }
            r.push(piece);
            rest = String::new();
            proof {
                assert(r.deep_view() + lines_spec(rest@) =~= lines_spec(s@));
            }
        } else {
            let raw = rest.as_str().substring_char(0, i);
            let piece = if raw.unicode_len() > 0 && raw.get_char(raw.unicode_len() - 1) == '\r' {
                raw.substring_char(0, raw.unicode_len() - 1).to_owned()
            } else {
                raw.to_owned()
            };
            proof {
                assert(raw@ == rest@.subrange(0, i as int));
                if raw@.len() > 0 && raw@[raw@.len() - 1] == '\r' {
                    assert(raw@.subrange(0, raw@.len() - 1) =~= strip_cr(raw@));
                }
                assert(piece@ == strip_cr(rest@.subrange(0, i as int)));
            }
            let tail = rest.as_str().substring_char(i + 1, n).to_owned();
            r.push(piece);
            proof {
                assert(lines_spec(rest@) == seq![strip_cr(rest@.subrange(0, i as int))] + lines_spec(tail@));
                assert(r.deep_view() + lines_spec(tail@) =~= lines_spec(s@));
            }
            rest = tail;
        }
    }
    proof {
        assert(r.deep_view() =~= lines_spec(s@));
    }
    r
}

/// The first line.
pub fn first_line(s: &str) -> (r: String)
    ensures
        r@ == first_line_spec(s@),
{
    let n = s.unicode_len();
    let i = find_char(s, '\n');
    proof {
        lemma_find_idx(s@, '\n');
    }
    if i < n {
        let raw = s.substring_char(0, i);
        if raw.unicode_len() > 0 && raw.get_char(raw.unicode_len() - 1) == '\r' {
            let r = raw.substring_char(0, raw.unicode_len() - 1).to_owned();
            proof {
                assert(raw@.subrange(0, raw@.len() - 1) =~= strip_cr(raw@));
            }
            r
        } else {
            raw.to_owned()
        }
    } else {
        s.to_owned()
    }
}

/// The pieces of `s` between occurrences of `c`; never empty, and keeps
/// empty pieces (so a trailing separator yields a final empty piece).
pub open spec fn split_spec(s: Seq<char>, c: char) -> Seq<Seq<char>>
    decreases s.len(),
    via split_spec_dec
{
    let i = find_idx(s, c);
    if i == s.len() {
        seq![s]
    } else {
        seq![s.subrange(0, i as int)] + split_spec(s.subrange(i as int + 1, s.len() as int), c)
    }
}

#[via_fn]
proof fn split_spec_dec(s: Seq<char>, c: char) {
    lemma_find_idx(s, c);
}

/// Split at every occurrence of `c`.
pub fn split_char(s: &str, c: char) -> (r: Vec<String>)
    ensures
        r.deep_view() == split_spec(s@, c),
{
    let mut r: Vec<String> = Vec::new();
    let mut rest: String = s.to_owned();
    loop
        invariant
            split_spec(s@, c) == r.deep_view() + split_spec(rest@, c),
        decreases rest@.len() + 1,
    {
        let n = rest.as_str().unicode_len();
        let i = find_char(rest.as_str(), c);
        proof {
            lemma_find_idx(rest@, c);
        }
        if i == n {
            let piece = rest.as_str().substring_char(0, n).to_owned();
            proof {
                assert(piece@ =~= rest@);
            }
            r.push(piece);
            proof {
                assert(r.deep_view() =~= split_spec(s@, c));
            }
            return r;
        } else {
            let piece = rest.as_str().substring_char(0, i).to_owned();
            let tail = rest.as_str().substring_char(i + 1, n).to_owned();
            r.push(piece);
            proof {
                assert(split_spec(rest@, c) == seq![rest@.subrange(0, i as int)] + split_spec(tail@, c));
                assert(r.deep_view() + split_spec(tail@, c) =~= split_spec(s@, c));
            }
            rest = tail;
        }
    }
}

/// Lexicographic order on character sequences, by code point.
pub open spec fn lex_le(a: Seq<char>, b: Seq<char>) -> bool
    decreases a.len(),
{
    if a.len() == 0 {
        true
    } else if b.len() == 0 {
        false
    } else if (a[0] as u32) < (b[0] as u32) {
        true
    } else if (a[0] as u32) > (b[0] as u32) {
        false
    } else {
        lex_le(a.drop_first(), b.drop_first())
    }
}

pub proof fn lemma_lex_total(a: Seq<char>, b: Seq<char>)
    ensures
        lex_le(a, b) || lex_le(b, a),
    decreases a.len(),
{
    if a.len() > 0 && b.len() > 0 && (a[0] as u32) == (b[0] as u32) {
        lemma_lex_total(a.drop_first(), b.drop_first());
    }
}

pub proof fn lemma_lex_antisym(a: Seq<char>, b: Seq<char>)
    requires
        lex_le(a, b),
        lex_le(b, a),
    ensures
        a == b,
    decreases a.len(),
{
    if a.len() == 0 {
        assert(b.len() == 0);
        assert(a =~= b);
    } else {
        assert(b.len() > 0);
        assert((a[0] as u32) == (b[0] as u32));
        lemma_char_cast_inj(a[0], b[0]);
        let ta = a.drop_first();
        let tb = b.drop_first();
        lemma_lex_antisym(ta, tb);
        assert(ta.len() == tb.len());
        assert(a.len() == b.len());
        assert forall|k: int| 0 <= k < a.len() implies a[k] == b[k] by {
            if k > 0 {
                assert(a[k] == ta[k - 1]);
                assert(b[k] == tb[k - 1]);
            }
        }
        assert(a =~= b);
    }
}

pub proof fn lemma_lex_trans(a: Seq<char>, b: Seq<char>, c: Seq<char>)
    requires
        lex_le(a, b),
        lex_le(b, c),
    ensures
        lex_le(a, c),
    decreases a.len(),
{
    if a.len() > 0 && b.len() > 0 && c.len() > 0 && (a[0] as u32) == (b[0] as u32)
        && (b[0] as u32) == (c[0] as u32) {
        lemma_lex_trans(a.drop_first(), b.drop_first(), c.drop_first());
    }
}

proof fn lemma_char_cast_inj(a: char, b: char)
    requires
        a as u32 == b as u32,
    ensures
        a == b,
{
}

/// Lexicographic comparison of two strings.
pub fn str_le(a: &str, b: &str) -> (r: bool)
    ensures
        r == lex_le(a@, b@),
    decreases a@.len(),
{
    let la = a.unicode_len();
    let lb = b.unicode_len();
    if la == 0 {
        true
    } else if lb == 0 {
        false
    } else {
        let ca = a.get_char(0) as u32;
        let cb = b.get_char(0) as u32;
        if ca < cb {
            true
        } else if ca > cb {
            false
        } else {
            let ta = a.substring_char(1, la);
            let tb = b.substring_char(1, lb);
            proof {
                assert(ta@ =~= a@.drop_first());
                assert(tb@ =~= b@.drop_first());
            }
            str_le(ta, tb)
        }
    }
}

/// The character for one decimal digit.
pub open spec fn digit_char(d: nat) -> char {
    if d == 0 { '0' }
    else if d == 1 { '1' }
    else if d == 2 { '2' }
    else if d == 3 { '3' }
    else if d == 4 { '4' }
    else if d == 5 { '5' }
    else if d == 6 { '6' }
    else if d == 7 { '7' }
    else if d == 8 { '8' }
    else { '9' }
}

/// Decimal rendering of a natural number, most significant digit first.
pub open spec fn dec_spec(n: nat) -> Seq<char>
    decreases n,
{
    if n < 10 {
        seq![digit_char(n)]
    } else {
        dec_spec(n / 10).push(digit_char(n % 10))
    }
}

fn digit_str(d: u64) -> (r: &'static str)
    requires
        d < 10,
    ensures
        r@ =~= seq![digit_char(d as nat)],
{
    proof {
        reveal_strlit("0");
        reveal_strlit("1");
        reveal_strlit("2");
        reveal_strlit("3");
        reveal_strlit("4");
        reveal_strlit("5");
        reveal_strlit("6");
        reveal_strlit("7");
        reveal_strlit("8");
        reveal_strlit("9");
    }
    if d == 0 { "0" }
    else if d == 1 { "1" }
    else if d == 2 { "2" }
    else if d == 3 { "3" }
    else if d == 4 { "4" }
    else if d == 5 { "5" }
    else if d == 6 { "6" }
    else if d == 7 { "7" }
    else if d == 8 { "8" }
    else { "9" }
}

/// Decimal rendering of an unsigned number.
pub fn u64_to_string(n: u64) -> (r: String)
    ensures
        r@ == dec_spec(n as nat),
    decreases n,
{
    if n < 10 {
        let mut s = String::new();
        s.append(digit_str(n));
        proof {
            assert(s@ =~= seq![digit_char(n as nat)]);
        }
        s
    } else {
        let mut s = u64_to_string(n / 10);
        s.append(digit_str(n % 10));
        proof {
            assert(s@ =~= dec_spec((n / 10) as nat).push(digit_char((n % 10) as nat)));
        }
        s
    }
}

} // verus!
