//! POSIX single-quote escaping for commands sent through the remote shell,
//! and a proof that a shell reading the escaped form recovers exactly the
//! original string as one word.

use vstd::prelude::*;
use vstd::string::*;

verus! {

/// One character of the escaped body: a single quote becomes the four
/// characters `'\''` (close the quoting, emit an escaped quote, reopen);
/// every other character stands as itself.
pub open spec fn esc_char(c: char) -> Seq<char> {
    if c == '\'' {
        seq!['\'', '\\', '\'', '\'']
    } else {
        seq![c]
    }
}

pub open spec fn esc_body(s: Seq<char>) -> Seq<char>
    decreases s.len(),
{
    if s.len() == 0 {
        Seq::empty()
    } else {
        esc_char(s[0]) + esc_body(s.drop_first())
    }
}

/// POSIX single-quote escaping: the whole string wrapped in single quotes,
/// each embedded quote replaced by `'\''`.
pub open spec fn shell_escape_spec(s: Seq<char>) -> Seq<char> {
    seq!['\''] + esc_body(s) + seq!['\'']
}

proof fn lemma_esc_body_snoc(s: Seq<char>, c: char)
    ensures
        esc_body(s.push(c)) == esc_body(s) + esc_char(c),
    decreases s.len(),
{
    if s.len() == 0 {
        assert(s.push(c)[0] == c);
        assert(s.push(c).drop_first() =~= Seq::<char>::empty());
        assert(esc_body(s.push(c)) == esc_char(c) + esc_body(Seq::<char>::empty()));
        assert(esc_body(s.push(c)) =~= esc_body(s) + esc_char(c));
    } else {
        assert(s.push(c)[0] == s[0]);
        assert(s.push(c).drop_first() =~= s.drop_first().push(c));
        lemma_esc_body_snoc(s.drop_first(), c);
        assert(esc_body(s.push(c)) =~= esc_body(s) + esc_char(c));
    }
}

/// Quote a string for the remote shell: `'` around the whole string, each
/// embedded single quote replaced by `'\''`.
pub fn shell_escape_posix_single(s: &str) -> (r: String)
    ensures
        r@ == shell_escape_spec(s@),
{
    proof {
        reveal_strlit("'");
        reveal_strlit("'\\''");
    }
    let mut out = String::new();
    out.append("'");
    let n = s.unicode_len();
    let mut i: usize = 0;
    while i < n
        invariant
            0 <= i <= n,
            n == s@.len(),
            out@ == seq!['\''] + esc_body(s@.subrange(0, i as int)),
        decreases n - i,
    {
        proof {
            reveal_strlit("'");
            reveal_strlit("'\\''");
        }
        let c = s.get_char(i);
        if c == '\'' {
            out.append("'\\''");
        } else {
            let piece = s.substring_char(i, i + 1);
            proof {
                assert(piece@ =~= seq![s@[i as int]]);
            }
            out.append(piece);
        }
        proof {
            assert(s@.subrange(0, i + 1) =~= s@.subrange(0, i as int).push(s@[i as int]));
            lemma_esc_body_snoc(s@.subrange(0, i as int), s@[i as int]);
            assert(out@ =~= seq!['\''] + esc_body(s@.subrange(0, i + 1)));
        }
        i = i + 1;
    }
    out.append("'");
    proof {
        assert(s@.subrange(0, n as int) =~= s@);
        assert(out@ =~= shell_escape_spec(s@));
    }
    out
}

/// Characters a POSIX shell treats specially outside quotes; a word that
/// carries one bare would not survive as a single literal argument.
pub open spec fn is_shell_special(c: char) -> bool {
    c == ' ' || c == '\t' || c == '\n' || c == '\r' || c == '|' || c == '&' || c == ';'
        || c == '<' || c == '>' || c == '(' || c == ')' || c == '$' || c == '`' || c == '"'
        || c == '*' || c == '?' || c == '[' || c == '#' || c == '~'
}

pub open spec fn prepend_read(c: char, r: Option<Seq<char>>) -> Option<Seq<char>> {
    match r {
        Some(t) => Some(seq![c] + t),
        None => None,
    }
}

/// How a POSIX shell reads one word made of ordinary characters, backslash
/// escapes and single-quoted spans: the single argument the word denotes,
/// or nothing when the word is unterminated, ends in a bare backslash, or
/// holds a bare special character.
pub open spec fn sh_read_word(s: Seq<char>, in_quote: bool) -> Option<Seq<char>>
    decreases s.len(),
{
    if s.len() == 0 {
        if in_quote {
            None
        } else {
            Some(Seq::empty())
        }
    } else if in_quote {
        if s[0] == '\'' {
            sh_read_word(s.drop_first(), false)
        } else {
            prepend_read(s[0], sh_read_word(s.drop_first(), true))
        }
    } else if s[0] == '\'' {
        sh_read_word(s.drop_first(), true)
    } else if s[0] == '\\' {
        if s.len() >= 2 {
            prepend_read(s[1], sh_read_word(s.subrange(2, s.len() as int), false))
        } else {
            None
        }
    } else if is_shell_special(s[0]) {
        None
    } else {
        prepend_read(s[0], sh_read_word(s.drop_first(), false))
    }
}

proof fn lemma_read_escaped_body(s: Seq<char>)
    ensures
        sh_read_word(esc_body(s) + seq!['\''], true) == Some(s),
    decreases s.len(),
{
    let inp = esc_body(s) + seq!['\''];
    if s.len() == 0 {
        assert(inp[0] == '\'');
        assert(inp.drop_first() =~= Seq::<char>::empty());
        assert(s =~= Seq::<char>::empty());
        assert(sh_read_word(inp, true) == sh_read_word(inp.drop_first(), false));
    } else {
        let c = s[0];
        let rest = esc_body(s.drop_first()) + seq!['\''];
        lemma_read_escaped_body(s.drop_first());
        if c == '\'' {
            assert(inp =~= seq!['\'', '\\', '\'', '\''] + rest);
            let i1 = inp.drop_first();
            assert(i1 =~= seq!['\\', '\'', '\''] + rest);
            assert(i1[0] == '\\' && i1.len() >= 2);
            let i2 = i1.subrange(2, i1.len() as int);
            assert(i2 =~= seq!['\''] + rest);
            assert(i2[0] == '\'');
            assert(i2.drop_first() =~= rest);
            assert(sh_read_word(inp, true) == sh_read_word(i1, false));
            assert(i1[1] == '\'');
            assert(sh_read_word(i1, false) == prepend_read('\'', sh_read_word(i2, false)));
            assert(sh_read_word(i2, false) == sh_read_word(rest, true));
            assert(sh_read_word(rest, true) == Some(s.drop_first()));
            assert(sh_read_word(inp, true) == prepend_read('\'', Some(s.drop_first())));
            assert(seq!['\''] + s.drop_first() =~= s);
        } else {
            assert(inp =~= seq![c] + rest);
            assert(inp[0] == c);
            assert(inp.drop_first() =~= rest);
            assert(sh_read_word(inp, true) == prepend_read(c, Some(s.drop_first())));
            assert(seq![c] + s.drop_first() =~= s);
        }
    }
}

/// LAW: quoting round-trips. For every string — single quotes, backslashes
/// and shell metacharacters included — the shell reads the escaped form
/// back as exactly the original string, as one argument.
pub proof fn lemma_shell_escape_round_trip(s: Seq<char>)
    ensures
        sh_read_word(shell_escape_spec(s), false) == Some(s),
{
    let inp = shell_escape_spec(s);
    assert(inp[0] == '\'');
    assert(inp.drop_first() =~= esc_body(s) + seq!['\'']);
    lemma_read_escaped_body(s);
}

} // verus!
