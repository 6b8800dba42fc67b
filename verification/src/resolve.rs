//! Executable resolution over a snapshot of filesystem facts: an
//! explicit hint (a path or a bare name), the conventional install
//! paths, then the search path — with the extension list on Windows.

use vstd::prelude::*;
use vstd::string::*;
use crate::model::{fs_kind_at, opt_str_view, FileKind, FsEntry, FsView};
use crate::text::{contains_char, find_idx, lemma_find_idx, str_eq, trim_spec, trim_str};

verus! {

/// The string names a path rather than a bare command.
pub open spec fn looks_like_path_spec(s: Seq<char>) -> bool {
    s.contains('/') || s.contains('\\') || s.contains(':')
}

/// Does the string name a path (a separator or a drive colon)?
pub fn looks_like_path(s: &str) -> (r: bool)
    ensures
        r == looks_like_path_spec(s@),
{
    contains_char(s, '/') || contains_char(s, '\\') || contains_char(s, ':')
}

/// Paths are carried as plain strings; this is the conversion point
/// where a caller holds a borrowed one.
pub fn path_to_string(p: &String) -> (r: String)
    ensures
        r@ == p@,
{
    p.clone()
}

/// A path joined from a directory and a name.
pub open spec fn join2(dir: Seq<char>, name: Seq<char>) -> Seq<char> {
    dir + "/"@ + name
}

/// Join a directory and a name.
pub fn join_path(dir: &str, name: &str) -> (r: String)
    ensures
        r@ == join2(dir@, name@),
{
    let mut r = dir.to_owned();
    r.append("/");
    r.append(name);
    proof {
        assert(r@ =~= join2(dir@, name@));
    }
    r
}

/// Concatenate two strings.
pub fn concat_str(a: &str, b: &str) -> (r: String)
    ensures
        r@ == a@ + b@,
{
    let mut r = a.to_owned();
    r.append(b);
    r
}

pub open spec fn is_sep(c: char) -> bool {
    c == '/' || c == '\\'
}

/// Index of the first path separator, or the length when absent.
pub open spec fn first_sep(s: Seq<char>) -> nat {
    if find_idx(s, '/') <= find_idx(s, '\\') {
        find_idx(s, '/')
    } else {
        find_idx(s, '\\')
    }
}

proof fn lemma_first_sep(s: Seq<char>)
    ensures
        first_sep(s) <= s.len(),
        first_sep(s) < s.len() ==> is_sep(s[first_sep(s) as int]),
        forall|k: int| 0 <= k < first_sep(s) ==> !is_sep(s[k]),
{
    lemma_find_idx(s, '/');
    lemma_find_idx(s, '\\');
}

/// The final component of a path: the suffix after the last separator.
pub open spec fn base_name_spec(s: Seq<char>) -> Seq<char>
    decreases s.len(),
    via base_name_dec
{
    let i = first_sep(s);
    if i >= s.len() {
        s
    } else {
        base_name_spec(s.subrange(i as int + 1, s.len() as int))
    }
}

#[via_fn]
proof fn base_name_dec(s: Seq<char>) {
    lemma_first_sep(s);
}

proof fn lemma_base_name(s: Seq<char>, p: int)
    requires
        0 <= p <= s.len(),
        forall|k: int| p <= k < s.len() ==> !is_sep(s[k]),
        p == 0 || is_sep(s[p - 1]),
    ensures
        base_name_spec(s) == s.subrange(p, s.len() as int),
    decreases s.len(),
{
    lemma_first_sep(s);
    let i = first_sep(s);
    if p == 0 {
        assert(i >= s.len());
        assert(s.subrange(0, s.len() as int) =~= s);
    } else {
        assert(i <= p - 1);
        assert(i < s.len());
        let t = s.subrange(i as int + 1, s.len() as int);
        lemma_base_name(t, p - i - 1);
        assert(t.subrange(p - i - 1, t.len() as int) =~= s.subrange(p, s.len() as int));
    }
}

/// The final component holds a dot after its first character, as an
/// extension does.
pub open spec fn has_extension_spec(s: Seq<char>) -> bool {
    exists|k: int| 1 <= k < base_name_spec(s).len() && base_name_spec(s)[k] == '.'
}

fn is_sep_char(c: char) -> (r: bool)
    ensures
        r == is_sep(c),
{
    c == '/' || c == '\\'
}

/// Does the final component of the path carry an extension?
pub fn has_extension(s: &str) -> (r: bool)
    ensures
        r == has_extension_spec(s@),
{
    let n = s.unicode_len();
    let mut p: usize = n;
    while p > 0 && !is_sep_char(s.get_char(p - 1))
        invariant
            0 <= p <= n,
            n == s@.len(),
            forall|k: int| p <= k < n ==> !is_sep(s@[k]),
        decreases p,
    {
        p = p - 1;
    }
    proof {
        lemma_base_name(s@, p as int);
    }
    if p == n {
        proof {
            assert(base_name_spec(s@).len() == 0);
        }
        return false;
    }
    let mut k: usize = p + 1;
    while k < n
        invariant
            p + 1 <= k <= n + 1,
            k <= n + 1,
            n == s@.len(),
            base_name_spec(s@) == s@.subrange(p as int, n as int),
            forall|j: int| p < j < k ==> s@[j] != '.',
        decreases n - k,
    {
        if s.get_char(k) == '.' {
            proof {
                let b = base_name_spec(s@);
                assert(b[k - p] == s@[k as int]);
                assert(1 <= k - p < b.len());
            }
            return true;
        }
        k = k + 1;
    }
    proof {
        let b = base_name_spec(s@);
        assert forall|j: int| 1 <= j < b.len() implies b[j] != '.' by {
            assert(b[j] == s@[p + j]);
        }
    }
    false
}

/// The first of the conventional install paths that is a file.
pub open spec fn known_hit(known: Seq<Seq<char>>, fs: Seq<FsEntry>) -> Option<Seq<char>>
    decreases known.len(),
{
    if known.len() == 0 {
        None
    } else if fs_kind_at(fs, known[0]) == FileKind::File {
        Some(known[0])
    } else {
        known_hit(known.drop_first(), fs)
    }
}

/// The first extension under which `dir/cmd` is a file.
pub open spec fn ext_hit(
    dir: Seq<char>,
    cmd: Seq<char>,
    exts: Seq<Seq<char>>,
    fs: Seq<FsEntry>,
) -> Option<Seq<char>>
    decreases exts.len(),
{
    if exts.len() == 0 {
        None
    } else {
        let cand = join2(dir, cmd + exts[0]);
        if fs_kind_at(fs, cand) == FileKind::File {
            Some(cand)
        } else {
            ext_hit(dir, cmd, exts.drop_first(), fs)
        }
    }
}

/// Search the path directories for a command: the bare name first; on
/// Windows, when the name carries no extension, each extension in turn.
pub open spec fn find_in_path_spec(
    cmd: Seq<char>,
    windows: bool,
    dirs: Seq<Seq<char>>,
    exts: Seq<Seq<char>>,
    fs: Seq<FsEntry>,
) -> Option<Seq<char>>
    decreases dirs.len(),
{
    if dirs.len() == 0 {
        None
    } else {
        let p0 = join2(dirs[0], cmd);
        if fs_kind_at(fs, p0) == FileKind::File {
            Some(p0)
        } else {
            let via_ext = if windows && !has_extension_spec(cmd) {
                ext_hit(dirs[0], cmd, exts, fs)
            } else {
                None
            };
            match via_ext {
                Some(p) => Some(p),
                None => find_in_path_spec(cmd, windows, dirs.drop_first(), exts, fs),
            }
        }
    }
}

/// Search the path directories for a command.
pub fn find_in_path(
    cmd: &str,
    windows: bool,
    path_dirs: &Vec<String>,
    exts: &Vec<String>,
    fs: &FsView,
) -> (r: Option<String>)
    ensures
        opt_str_view(r) == find_in_path_spec(
            cmd@,
            windows,
            path_dirs.deep_view(),
            exts.deep_view(),
            fs.entries@,
        ),
{
    let nd = path_dirs.len();
    let no_ext = !has_extension(cmd);
    let ghost full = find_in_path_spec(
        cmd@,
        windows,
        path_dirs.deep_view(),
        exts.deep_view(),
        fs.entries@,
    );
    proof {
        assert(path_dirs.deep_view().skip(0) =~= path_dirs.deep_view());
    }
    let mut i: usize = 0;
    while i < nd
        invariant
            0 <= i <= nd,
            nd == path_dirs@.len(),
            no_ext == !has_extension_spec(cmd@),
            full == find_in_path_spec(
                cmd@,
                windows,
                path_dirs.deep_view(),
                exts.deep_view(),
                fs.entries@,
            ),
            full == find_in_path_spec(
                cmd@,
                windows,
                path_dirs.deep_view().skip(i as int),
                exts.deep_view(),
                fs.entries@,
            ),
        decreases nd - i,
    {
        proof {
            assert(path_dirs.deep_view().skip(i as int)[0] == path_dirs.deep_view()[i as int]);
            assert(path_dirs.deep_view().skip(i as int).drop_first() =~= path_dirs.deep_view()
                .skip(i + 1));
            assert(path_dirs.deep_view()[i as int] == path_dirs@[i as int]@);
        }
        let p0 = join_path(path_dirs[i].as_str(), cmd);
        if fs.lookup(p0.as_str()) == FileKind::File {
            proof {
                assert(find_in_path_spec(
                    cmd@,
                    windows,
                    path_dirs.deep_view().skip(i as int),
                    exts.deep_view(),
                    fs.entries@,
                ) == Some(p0@));
            }
            return Some(p0);
        }
        if windows && no_ext {
            let ne = exts.len();
            proof {
                assert(exts.deep_view().skip(0) =~= exts.deep_view());
            }
            let mut j: usize = 0;
            while j < ne
                invariant
                    0 <= j <= ne,
                    ne == exts@.len(),
                    i < nd,
                    nd == path_dirs@.len(),
                    windows,
                    no_ext,
                    no_ext == !has_extension_spec(cmd@),
                    fs_kind_at(fs.entries@, join2(path_dirs.deep_view()[i as int], cmd@))
                        != FileKind::File,
                    full == find_in_path_spec(
                        cmd@,
                        windows,
                        path_dirs.deep_view().skip(i as int),
                        exts.deep_view(),
                        fs.entries@,
                    ),
                    full == find_in_path_spec(
                        cmd@,
                        windows,
                        path_dirs.deep_view(),
                        exts.deep_view(),
                        fs.entries@,
                    ),
                    path_dirs.deep_view().skip(i as int)[0] == path_dirs.deep_view()[i as int],
                    ext_hit(
                        path_dirs.deep_view()[i as int],
                        cmd@,
                        exts.deep_view(),
                        fs.entries@,
                    ) == ext_hit(
                        path_dirs.deep_view()[i as int],
                        cmd@,
                        exts.deep_view().skip(j as int),
                        fs.entries@,
                    ),
                decreases ne - j,
            {
                proof {
                    assert(exts.deep_view().skip(j as int)[0] == exts.deep_view()[j as int]);
                    assert(exts.deep_view().skip(j as int).drop_first() =~= exts.deep_view().skip(
                        j + 1,
                    ));
                    assert(exts.deep_view()[j as int] == exts@[j as int]@);
                    assert(path_dirs.deep_view()[i as int] == path_dirs@[i as int]@);
                }
                let with_ext = concat_str(cmd, exts[j].as_str());
                let cand = join_path(path_dirs[i].as_str(), with_ext.as_str());
                if fs.lookup(cand.as_str()) == FileKind::File {
                    proof {
                        assert(ext_hit(
                            path_dirs.deep_view()[i as int],
                            cmd@,
                            exts.deep_view().skip(j as int),
                            fs.entries@,
                        ) == Some(cand@));
                        assert(find_in_path_spec(
                            cmd@,
                            windows,
                            path_dirs.deep_view().skip(i as int),
                            exts.deep_view(),
                            fs.entries@,
                        ) == Some(cand@));
                    }
                    return Some(cand);
                }
                j = j + 1;
            }
            proof {
                assert(exts.deep_view().skip(ne as int) =~= Seq::<Seq<char>>::empty());
                assert(ext_hit(
                    path_dirs.deep_view()[i as int],
                    cmd@,
                    exts.deep_view(),
                    fs.entries@,
                ) is None);
            }
        }
        i = i + 1;
    }
    proof {
        assert(path_dirs.deep_view().skip(nd as int) =~= Seq::<Seq<char>>::empty());
    }
    None
}

/// Resolve an executable: an explicit hint first (a path is probed
/// directly, with the base name and its Windows form inside a
/// directory; a bare name is searched on the path), then the
/// conventional install paths, then the search path.
pub open spec fn resolve_spec(
    explicit: Option<Seq<char>>,
    base_name: Seq<char>,
    known: Seq<Seq<char>>,
    windows: bool,
    dirs: Seq<Seq<char>>,
    exts: Seq<Seq<char>>,
    fs: Seq<FsEntry>,
) -> Option<Seq<char>> {
    let from_explicit = match explicit {
        Some(s) => {
            let t = trim_spec(s);
            if t.len() != 0 {
                if looks_like_path_spec(t) {
                    if fs_kind_at(fs, t) == FileKind::File {
                        Some(t)
                    } else if fs_kind_at(fs, t) == FileKind::Dir {
                        let p2 = join2(t, base_name);
                        if fs_kind_at(fs, p2) == FileKind::File {
                            Some(p2)
                        } else if windows && fs_kind_at(fs, join2(t, base_name + ".exe"@))
                            == FileKind::File {
                            Some(join2(t, base_name + ".exe"@))
                        } else {
                            None
                        }
                    } else {
                        None
                    }
                } else {
                    find_in_path_spec(t, windows, dirs, exts, fs)
                }
            } else {
                None
            }
        },
        None => None,
    };
    match from_explicit {
        Some(p) => Some(p),
        None => match known_hit(known, fs) {
            Some(p) => Some(p),
            None => find_in_path_spec(base_name, windows, dirs, exts, fs),
        },
    }
}

/// Resolve an executable from a hint, the conventional install paths and
/// the search path, against the supplied filesystem facts.
pub fn resolve_executable(
    explicit: &Option<String>,
    base_name: &str,
    known_paths: &Vec<String>,
    windows: bool,
    path_dirs: &Vec<String>,
    exts: &Vec<String>,
    fs: &FsView,
) -> (r: Option<String>)
    ensures
        opt_str_view(r) == resolve_spec(
            opt_str_view(*explicit),
            base_name@,
            known_paths.deep_view(),
            windows,
            path_dirs.deep_view(),
            exts.deep_view(),
            fs.entries@,
        ),
{
    match explicit {
        Some(s) => {
            let t = trim_str(s.as_str());
            if t.as_str().unicode_len() != 0 {
                if looks_like_path(t.as_str()) {
                    let k = fs.lookup(t.as_str());
                    if k == FileKind::File {
                        return Some(t);
                    }
                    if k == FileKind::Dir {
                        let p2 = join_path(t.as_str(), base_name);
                        if fs.lookup(p2.as_str()) == FileKind::File {
                            return Some(p2);
                        }
                        if windows {
                            let exe_name = concat_str(base_name, ".exe");
                            let p3 = join_path(t.as_str(), exe_name.as_str());
                            if fs.lookup(p3.as_str()) == FileKind::File {
                                return Some(p3);
                            }
                        }
                    }
                } else {
                    match find_in_path(t.as_str(), windows, path_dirs, exts, fs) {
                        Some(p) => {
                            return Some(p);
                        },
                        None => {},
                    }
                }
            }
        },
        None => {},
    }
    let nk = known_paths.len();
    proof {
        assert(known_paths.deep_view().skip(0) =~= known_paths.deep_view());
    }
    let ghost full = resolve_spec(
        opt_str_view(*explicit),
        base_name@,
        known_paths.deep_view(),
        windows,
        path_dirs.deep_view(),
        exts.deep_view(),
        fs.entries@,
    );
    proof {
        assert(full == (match known_hit(known_paths.deep_view(), fs.entries@) {
            Some(p) => Some(p),
            None => find_in_path_spec(
                base_name@,
                windows,
                path_dirs.deep_view(),
                exts.deep_view(),
                fs.entries@,
            ),
        }));
    }
    let mut i: usize = 0;
    while i < nk
        invariant
            0 <= i <= nk,
            nk == known_paths@.len(),
            full == resolve_spec(
                opt_str_view(*explicit),
                base_name@,
                known_paths.deep_view(),
                windows,
                path_dirs.deep_view(),
                exts.deep_view(),
                fs.entries@,
            ),
            full == (match known_hit(known_paths.deep_view().skip(i as int), fs.entries@) {
                Some(p) => Some(p),
                None => find_in_path_spec(
                    base_name@,
                    windows,
                    path_dirs.deep_view(),
                    exts.deep_view(),
                    fs.entries@,
                ),
            }),
        decreases nk - i,
    {
        proof {
            assert(known_paths.deep_view().skip(i as int)[0] == known_paths.deep_view()[
                i as int
            ]);
            assert(known_paths.deep_view().skip(i as int).drop_first() =~= known_paths.deep_view()
                .skip(i + 1));
            assert(known_paths.deep_view()[i as int] == known_paths@[i as int]@);
        }
        if fs.lookup(known_paths[i].as_str()) == FileKind::File {
            let hit = known_paths[i].clone();
            proof {
                assert(known_hit(known_paths.deep_view().skip(i as int), fs.entries@) == Some(
                    known_paths.deep_view()[i as int],
                ));
                assert(full == Some(hit@));
            }
            return Some(hit);
        }
        i = i + 1;
    }
    proof {
        assert(known_paths.deep_view().skip(nk as int) =~= Seq::<Seq<char>>::empty());
    }
    find_in_path(base_name, windows, path_dirs, exts, fs)
}

/// The conventional install paths probed for git on Windows.
pub open spec fn git_known_spec(windows: bool) -> Seq<Seq<char>> {
    if windows {
        seq![
            "C:\\Program Files\\Git\\cmd\\git.exe"@,
            "C:\\Program Files\\Git\\bin\\git.exe"@,
            "C:\\Program Files (x86)\\Git\\cmd\\git.exe"@,
            "C:\\Program Files (x86)\\Git\\bin\\git.exe"@,
        ]
    } else {
        Seq::empty()
    }
}

/// The conventional install path probed for the remote shell on Windows.
pub open spec fn ssh_known_spec(windows: bool) -> Seq<Seq<char>> {
    if windows {
        seq!["C:\\Windows\\System32\\OpenSSH\\ssh.exe"@]
    } else {
        Seq::empty()
    }
}

/// Resolve the git executable.
pub fn git_exe(
    git_path: &Option<String>,
    windows: bool,
    path_dirs: &Vec<String>,
    exts: &Vec<String>,
    fs: &FsView,
) -> (r: Option<String>)
    ensures
        opt_str_view(r) == resolve_spec(
            opt_str_view(*git_path),
            "git"@,
            git_known_spec(windows),
            windows,
            path_dirs.deep_view(),
            exts.deep_view(),
            fs.entries@,
        ),
{
    let mut known: Vec<String> = Vec::new();
    if windows {
        crate::model::push_string(&mut known, String::from_str("C:\\Program Files\\Git\\cmd\\git.exe"));
        crate::model::push_string(&mut known, String::from_str("C:\\Program Files\\Git\\bin\\git.exe"));
        crate::model::push_string(
            &mut known,
            String::from_str("C:\\Program Files (x86)\\Git\\cmd\\git.exe"),
        );
        crate::model::push_string(
            &mut known,
            String::from_str("C:\\Program Files (x86)\\Git\\bin\\git.exe"),
        );
    }
    proof {
        assert(known.deep_view() =~= git_known_spec(windows));
    }
    resolve_executable(git_path, "git", &known, windows, path_dirs, exts, fs)
}

/// Resolve the remote-shell executable.
pub fn ssh_exe(
    ssh_path: &Option<String>,
    windows: bool,
    path_dirs: &Vec<String>,
    exts: &Vec<String>,
    fs: &FsView,
) -> (r: Option<String>)
    ensures
        opt_str_view(r) == resolve_spec(
            opt_str_view(*ssh_path),
            "ssh"@,
            ssh_known_spec(windows),
            windows,
            path_dirs.deep_view(),
            exts.deep_view(),
            fs.entries@,
        ),
{
    let mut known: Vec<String> = Vec::new();
    if windows {
        crate::model::push_string(
            &mut known,
            String::from_str("C:\\Windows\\System32\\OpenSSH\\ssh.exe"),
        );
    }
    proof {
        assert(known.deep_view() =~= ssh_known_spec(windows));
    }
    resolve_executable(ssh_path, "ssh", &known, windows, path_dirs, exts, fs)
}

/// The Windows extension list: the supplied variable split at
/// semicolons, blanks dropped and entries trimmed; a fixed default when
/// the variable is absent; empty off Windows.
pub open spec fn exts_of_pieces(pieces: Seq<Seq<char>>) -> Seq<Seq<char>>
    decreases pieces.len(),
{
    if pieces.len() == 0 {
        Seq::empty()
    } else {
        (if trim_spec(pieces[0]).len() != 0 {
            seq![trim_spec(pieces[0])]
        } else {
            Seq::<Seq<char>>::empty()
        }) + exts_of_pieces(pieces.drop_first())
    }
}

pub open spec fn pathexts_spec(windows: bool, pathext: Option<Seq<char>>) -> Seq<Seq<char>> {
    if !windows {
        Seq::empty()
    } else {
        match pathext {
            Some(v) => exts_of_pieces(crate::text::split_spec(v, ';')),
            None => seq![".EXE"@, ".CMD"@, ".BAT"@, ".COM"@],
        }
    }
}

proof fn lemma_exts_snoc(pieces: Seq<Seq<char>>, p: Seq<char>)
    ensures
        exts_of_pieces(pieces.push(p)) == exts_of_pieces(pieces) + (if trim_spec(p).len() != 0 {
            seq![trim_spec(p)]
        } else {
            Seq::<Seq<char>>::empty()
        }),
    decreases pieces.len(),
{
    let unit = (if trim_spec(p).len() != 0 {
        seq![trim_spec(p)]
    } else {
        Seq::<Seq<char>>::empty()
    });
    if pieces.len() == 0 {
        assert(pieces.push(p)[0] == p);
        assert(pieces.push(p).drop_first() =~= Seq::<Seq<char>>::empty());
        assert(exts_of_pieces(pieces.push(p)) == (if trim_spec(pieces.push(p)[0]).len() != 0 {
            seq![trim_spec(pieces.push(p)[0])]
        } else {
            Seq::<Seq<char>>::empty()
        }) + exts_of_pieces(pieces.push(p).drop_first()));
        assert(exts_of_pieces(pieces.push(p).drop_first()) == exts_of_pieces(
            Seq::<Seq<char>>::empty(),
        ));
        assert(exts_of_pieces(pieces.push(p)) =~= exts_of_pieces(pieces) + unit);
    } else {
        assert(pieces.push(p)[0] == pieces[0]);
        assert(pieces.push(p).drop_first() =~= pieces.drop_first().push(p));
        lemma_exts_snoc(pieces.drop_first(), p);
        assert(exts_of_pieces(pieces.push(p)) =~= exts_of_pieces(pieces) + unit);
    }
}

/// The extension list used when searching the path on Windows.
pub fn pathexts(windows: bool, pathext: &Option<String>) -> (r: Vec<String>)
    ensures
        r.deep_view() == pathexts_spec(windows, opt_str_view(*pathext)),
{
    let mut r: Vec<String> = Vec::new();
    if !windows {
        proof {
            assert(r.deep_view() =~= pathexts_spec(windows, opt_str_view(*pathext)));
        }
        return r;
    }
    match pathext {
        Some(v) => {
            let pieces = crate::text::split_char(v.as_str(), ';');
            let n = pieces.len();
            proof {
                assert(pieces.deep_view().take(0) =~= Seq::<Seq<char>>::empty());
                assert(exts_of_pieces(pieces.deep_view().take(0)) =~= Seq::<Seq<char>>::empty());
                assert(r.deep_view() =~= Seq::<Seq<char>>::empty());
            }
            let mut i: usize = 0;
            while i < n
                invariant
                    0 <= i <= n,
                    n == pieces@.len(),
                    pieces.deep_view() == crate::text::split_spec(v@, ';'),
                    r.deep_view() == exts_of_pieces(pieces.deep_view().take(i as int)),
                decreases n - i,
            {
                proof {
                    assert(pieces.deep_view().take(i + 1) =~= pieces.deep_view().take(
                        i as int,
                    ).push(pieces.deep_view()[i as int]));
                    lemma_exts_snoc(pieces.deep_view().take(i as int), pieces.deep_view()[i as int]);
                    assert(pieces.deep_view()[i as int] == pieces@[i as int]@);
                }
                let t = trim_str(pieces[i].as_str());
                if t.as_str().unicode_len() != 0 {
                    let ghost pre = r.deep_view();
                    crate::model::push_string(&mut r, t);
                    proof {
                        assert(r.deep_view() =~= exts_of_pieces(pieces.deep_view().take(i + 1)));
                    }
                } else {
                    proof {
                        assert(r.deep_view() =~= exts_of_pieces(pieces.deep_view().take(i + 1)));
                    }
                }
                i = i + 1;
            }
            proof {
                assert(pieces.deep_view().take(n as int) =~= pieces.deep_view());
            }
            r
        },
        None => {
            crate::model::push_string(&mut r, String::from_str(".EXE"));
            crate::model::push_string(&mut r, String::from_str(".CMD"));
            crate::model::push_string(&mut r, String::from_str(".BAT"));
            crate::model::push_string(&mut r, String::from_str(".COM"));
            proof {
                assert(r.deep_view() =~= pathexts_spec(windows, opt_str_view(*pathext)));
            }
            r
        },
    }
}

/// Is the path a working tree with the git metadata marker?
pub fn repo_is_git_dir(fs: &FsView, p: &str) -> (r: bool)
    ensures
        r == (fs.kind_of(join2(p@, ".git"@)) != FileKind::Missing),
{
    let marker = join_path(p, ".git");
    let k = fs.lookup(marker.as_str());
    !(k == FileKind::Missing)
}

/// Is the directory a repository (its git marker a directory or a
/// file)?
pub fn is_git_repo_dir(fs: &FsView, dir: &str) -> (r: bool)
    ensures
        r == (fs.kind_of(join2(dir@, ".git"@)) == FileKind::Dir || fs.kind_of(
            join2(dir@, ".git"@),
        ) == FileKind::File),
{
    let marker = join_path(dir, ".git");
    let k = fs.lookup(marker.as_str());
    k == FileKind::Dir || k == FileKind::File
}

/// Directories a repository scan skips, for speed and noise reduction.
pub fn should_skip_dir(name: &str) -> (r: bool)
    ensures
        r == (name@ == ".git"@ || name@ == "node_modules"@ || name@ == "target"@ || name@
            == "dist"@ || name@ == "build"@ || name@ == ".venv"@ || name@ == ".idea"@ || name@
            == ".vscode"@),
{
    str_eq(name, ".git") || str_eq(name, "node_modules") || str_eq(name, "target") || str_eq(
        name,
        "dist",
    ) || str_eq(name, "build") || str_eq(name, ".venv") || str_eq(name, ".idea") || str_eq(
        name,
        ".vscode",
    )
}

} // verus!
