//! Putting a plain file name under a directory, as `Path::join` does on the
//! platform whose main separator is given (`/`, or `\` on Windows).

use vstd::prelude::*;
use vstd::string::StringExecFns;
use crate::text::{chars_of, text_of};

verus! {

/// A single file name: not empty, not `.` or `..`, and without `/`, `\` or
/// `:`, so that no platform reads a separator, a root or a drive into it.
pub open spec fn is_plain_name(name: Seq<char>) -> bool {
    &&& name.len() > 0
    &&& name != seq!['.']
    &&& name != seq!['.', '.']
    &&& forall|i: int| 0 <= i < name.len() ==> #[trigger] name[i] != '/' && name[i] != '\\' && name[i] != ':'
}

/// Whether `name` is a plain file name.
pub fn is_plain_name_text(name: &str) -> (r: bool)
    ensures
        r == is_plain_name(name@),
{
    let cs = chars_of(name);
    let n = cs.len();
    if n == 0 {
        return false;
    }
    if n == 1 && cs[0] == '.' {
        assert(name@ == seq!['.']);
        return false;
    }
    if n == 2 && cs[0] == '.' && cs[1] == '.' {
        assert(name@ =~= seq!['.', '.']);
        return false;
    }
    let mut i: usize = 0;
    while i < n
        invariant
            n == cs@.len(),
            cs@ == name@,
            i <= n,
            forall|j: int| 0 <= j < i ==> #[trigger] cs@[j] != '/' && cs@[j] != '\\' && cs@[j] != ':',
        decreases n - i,
    {
        if cs[i] == '/' || cs[i] == '\\' || cs[i] == ':' {
            return false;
        }
        i = i + 1;
    }
    assert(n == 1 ==> name@ != seq!['.']);
    assert(n == 2 ==> name@ != seq!['.', '.']);
    true
}

/// A path separator on the platform whose main separator is `sep`: `/`
/// everywhere, and `sep` itself (`\` on Windows).
pub open spec fn is_separator(sep: char, c: char) -> bool {
    c == '/' || c == sep
}

/// An ASCII letter, as a drive letter is.
pub open spec fn is_ascii_letter(c: char) -> bool {
    ('A' <= c && c <= 'Z') || ('a' <= c && c <= 'z')
}

/// On Windows, a directory that is only a drive such as `C:`.
pub open spec fn is_bare_drive(sep: char, dir: Seq<char>) -> bool {
    &&& sep == '\\'
    &&& dir.len() == 2
    &&& dir[1] == ':'
    &&& is_ascii_letter(dir[0])
}

/// On Windows, a verbatim directory (starting `\\?\`).
pub open spec fn is_verbatim(sep: char, dir: Seq<char>) -> bool {
    &&& sep == '\\'
    &&& dir.len() >= 4
    &&& dir[0] == '\\'
    &&& dir[1] == '\\'
    &&& dir[2] == '?'
    &&& dir[3] == '\\'
}

/// The index of the first `\` of `s`, or its length when it has none.
pub open spec fn first_backslash(s: Seq<char>) -> nat
    decreases s.len(),
{
    if s.len() == 0 {
        0
    } else if s[0] == '\\' {
        0
    } else {
        1 + first_backslash(s.drop_first())
    }
}

/// The prefix of a verbatim directory, as Windows parses it: its length,
/// and whether it is a drive. `\\?\UNC\server\share` (the share only when
/// there is one), `\\?\C:` (a drive, when the component is exactly a letter
/// and a colon), or else `\\?\` and the component up to the next `\`.
pub open spec fn verbatim_prefix(dir: Seq<char>) -> (int, bool) {
    let after = dir.skip(4);
    if after.len() >= 4 && after[0] == 'U' && after[1] == 'N' && after[2] == 'C' && after[3] == '\\' {
        let s = after.skip(4);
        let k1 = first_backslash(s) as int;
        if k1 == s.len() {
            (8 + k1, false)
        } else {
            let k2 = first_backslash(s.skip(k1 + 1)) as int;
            (8 + k1 + if k2 > 0 { 1 + k2 } else { 0 }, false)
        }
    } else {
        let k = first_backslash(after) as int;
        if k == 2 && after[1] == ':' && is_ascii_letter(after[0]) {
            (6, true)
        } else {
            (4 + k, false)
        }
    }
}

/// The components of `s` (split on `\`, empty ones left out) written with
/// one `\` between them; `pending` says a `\` is due before the next
/// component, `started` that one was written.
pub open spec fn tidy_from(s: Seq<char>, pending: bool, started: bool) -> Seq<char>
    decreases s.len(),
{
    if s.len() == 0 {
        Seq::empty()
    } else if s[0] == '\\' {
        tidy_from(s.drop_first(), started, started)
    } else {
        (if pending { seq!['\\'] } else { Seq::empty() }) + seq![s[0]] + tidy_from(s.drop_first(), false, true)
    }
}

/// `name` under a verbatim directory: `Path::push` rebuilds the path from
/// its components, so the prefix, the root (if any), the other components
/// with one `\` between them, and the name; a `\` follows a prefix that is
/// not a drive when no root does.
pub open spec fn verbatim_joined(dir: Seq<char>, name: Seq<char>) -> Seq<char> {
    let (plen, drive) = verbatim_prefix(dir);
    let rest = dir.skip(plen);
    let root = rest.len() > 0 && rest[0] == '\\';
    let body = tidy_from(rest, false, false);
    dir.take(plen) + (if root || !drive { seq!['\\'] } else { Seq::empty() }) + (if body.len() > 0 {
        body + seq!['\\']
    } else {
        Seq::empty()
    }) + name
}

/// The plain name `name` put under the directory `dir`, as `Path::join`
/// does on the platform whose main separator is `sep`: under a Windows
/// verbatim directory, the rebuilt path; else the main separator goes
/// between them unless `dir` is empty, ends in a separator, or (on Windows)
/// is a bare drive.
pub open spec fn joined(sep: char, dir: Seq<char>, name: Seq<char>) -> Seq<char> {
    if is_verbatim(sep, dir) {
        verbatim_joined(dir, name)
    } else if dir.len() == 0 || is_separator(sep, dir.last()) || is_bare_drive(sep, dir) {
        dir + name
    } else {
        dir + seq![sep] + name
    }
}

/// The index of the first `\` of `cs` from `start` on, or its length.
fn find_backslash(cs: &[char], start: usize) -> (k: usize)
    requires
        start <= cs@.len(),
    ensures
        start <= k <= cs@.len(),
        k - start == first_backslash(cs@.subrange(start as int, cs@.len() as int)),
{
    let n = cs.len();
    let mut i = start;
    while i < n && cs[i] != '\\'
        invariant
            n == cs@.len(),
            start <= i <= n,
            first_backslash(cs@.subrange(start as int, n as int)) == (i - start) + first_backslash(cs@.subrange(i as int, n as int)),
        decreases n - i,
    {
        assert(cs@.subrange(i as int, n as int).drop_first() =~= cs@.subrange(i + 1, n as int));
        i = i + 1;
    }
    i
}

/// The length of the prefix of a verbatim directory, and whether it is a drive.
fn verbatim_prefix_exec(cs: &[char]) -> (r: (usize, bool))
    requires
        cs@.len() >= 4,
    ensures
        r.0 as int == verbatim_prefix(cs@).0,
        r.1 == verbatim_prefix(cs@).1,
        4 <= r.0 <= cs@.len(),
{
    let n = cs.len();
    let ghost after = cs@.skip(4);
    if n >= 8 && cs[4] == 'U' && cs[5] == 'N' && cs[6] == 'C' && cs[7] == '\\' {
        let e1 = find_backslash(cs, 8);
        assert(cs@.subrange(8, n as int) =~= after.skip(4));
        if e1 == n {
            (e1, false)
        } else {
            let e2 = find_backslash(cs, e1 + 1);
            assert(cs@.subrange(e1 + 1, n as int) =~= after.skip(4).skip(e1 - 8 + 1));
            if e2 > e1 + 1 {
                (e2, false)
            } else {
                (e1, false)
            }
        }
    } else {
        let e = find_backslash(cs, 4);
        assert(cs@.subrange(4, n as int) =~= after);
        if e == 6 && cs[5] == ':' && (('A' <= cs[4] && cs[4] <= 'Z') || ('a' <= cs[4] && cs[4] <= 'z')) {
            (6, true)
        } else {
            (e, false)
        }
    }
}

/// The components of `cs` from `start` on, with one `\` between them.
fn tidy_exec(cs: &[char], start: usize) -> (r: Vec<char>)
    requires
        start <= cs@.len(),
    ensures
        r@ == tidy_from(cs@.subrange(start as int, cs@.len() as int), false, false),
{
    let n = cs.len();
    let ghost rest = cs@.subrange(start as int, n as int);
    let mut out: Vec<char> = Vec::new();
    let mut pending = false;
    let mut started = false;
    let mut i = start;
    while i < n
        invariant
            n == cs@.len(),
            start <= i <= n,
            rest == cs@.subrange(start as int, n as int),
            tidy_from(rest, false, false) == out@ + tidy_from(cs@.subrange(i as int, n as int), pending, started),
        decreases n - i,
    {
        let ghost cur = cs@.subrange(i as int, n as int);
        assert(cur.drop_first() =~= cs@.subrange(i + 1, n as int));
        if cs[i] == '\\' {
            pending = started;
        } else {
            let ghost before = out@;
            let ghost was_pending = pending;
            if pending {
                out.push('\\');
            }
            out.push(cs[i]);
            proof {
                if was_pending {
                    assert(out@ =~= before + seq!['\\'] + seq![cs@[i as int]]);
                } else {
                    assert(out@ =~= before + Seq::<char>::empty() + seq![cs@[i as int]]);
                }
            }
            pending = false;
            started = true;
        }
        i = i + 1;
    }
    assert(cs@.subrange(n as int, n as int) =~= Seq::<char>::empty());
    assert(out@ + Seq::<char>::empty() =~= out@);
    out
}

/// Puts the plain name `name` under the directory `dir`, as `Path::join`
/// does on the platform whose main separator is `sep`
/// (`std::path::MAIN_SEPARATOR`: `/`, or `\` on Windows).
pub fn join_path(dir: &str, name: &str, sep: char) -> (r: String)
    requires
        sep == '/' || sep == '\\',
        is_plain_name(name@),
    ensures
        r@ == joined(sep, dir@, name@),
{
    let cs = chars_of(dir);
    let n = cs.len();
    if sep == '\\' && n >= 4 && cs[0] == '\\' && cs[1] == '\\' && cs[2] == '?' && cs[3] == '\\' {
        let (plen, drive) = verbatim_prefix_exec(cs.as_slice());
        let mut out: Vec<char> = Vec::new();
        let mut i: usize = 0;
        while i < plen
            invariant
                plen <= n == cs@.len(),
                i <= plen,
                out@ == cs@.take(i as int),
            decreases plen - i,
        {
            out.push(cs[i]);
            i = i + 1;
            assert(out@ =~= cs@.take(i as int));
        }
        let root = plen < n && cs[plen] == '\\';
        if root || !drive {
            out.push('\\');
        }
        let body = tidy_exec(cs.as_slice(), plen);
        assert(cs@.subrange(plen as int, n as int) =~= cs@.skip(plen as int));
        let mut j: usize = 0;
        let ghost head = out@;
        while j < body.len()
            invariant
                out@ == head + body@.take(j as int),
                j <= body@.len(),
            decreases body@.len() - j,
        {
            out.push(body[j]);
            j = j + 1;
            assert(out@ =~= head + body@.take(j as int));
        }
        assert(body@.take(body@.len() as int) =~= body@);
        if body.len() > 0 {
            out.push('\\');
        }
        let prefix_text = text_of(out.as_slice());
        let r = prefix_text.concat(name);
        assert(r@ =~= verbatim_joined(dir@, name@));
        r
    } else if n == 0 || cs[n - 1] == '/' || cs[n - 1] == sep || (sep == '\\' && n == 2 && cs[1] == ':'
        && (('A' <= cs[0] && cs[0] <= 'Z') || ('a' <= cs[0] && cs[0] <= 'z'))) {
        String::from_str(dir).concat(name)
    } else {
        let sep_chars: Vec<char> = vec![sep];
        let sep_text = text_of(sep_chars.as_slice());
        assert(sep_text@ =~= seq![sep]);
        String::from_str(dir).concat(sep_text.as_str()).concat(name)
    }
}

} // verus!
