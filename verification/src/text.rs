//! Character-level text rules: Unicode white space, trimming, substring
//! search and newline replacement, all over `Seq<char>` views.

use vstd::prelude::*;

verus! {

/// The Unicode `White_Space` property (PropList.txt), which is what
/// `char::is_whitespace` and `str::trim` go by.
pub open spec fn is_white_space(c: char) -> bool {
    let u = c as u32;
    ||| (0x09 <= u && u <= 0x0d)
    ||| u == 0x20
    ||| u == 0x85
    ||| u == 0xa0
    ||| u == 0x1680
    ||| (0x2000 <= u && u <= 0x200a)
    ||| u == 0x2028
    ||| u == 0x2029
    ||| u == 0x202f
    ||| u == 0x205f
    ||| u == 0x3000
}

/// Executable form of [`is_white_space`].
pub fn is_white_space_char(c: char) -> (r: bool)
    ensures
        r == is_white_space(c),
{
    let u = c as u32;
    (0x09 <= u && u <= 0x0d) || u == 0x20 || u == 0x85 || u == 0xa0 || u == 0x1680 || (0x2000
        <= u && u <= 0x200a) || u == 0x2028 || u == 0x2029 || u == 0x202f || u == 0x205f || u
        == 0x3000
}

/// `s` with its leading white space removed.
pub open spec fn trim_start(s: Seq<char>) -> Seq<char>
    decreases s.len(),
{
    if s.len() > 0 && is_white_space(s[0]) {
        trim_start(s.drop_first())
    } else {
        s
    }
}

/// `s` with its trailing white space removed.
pub open spec fn trim_end(s: Seq<char>) -> Seq<char>
    decreases s.len(),
{
    if s.len() > 0 && is_white_space(s.last()) {
        trim_end(s.drop_last())
    } else {
        s
    }
}

/// `s` with leading and trailing white space removed, as `str::trim` does.
pub open spec fn trimmed(s: Seq<char>) -> Seq<char> {
    trim_end(trim_start(s))
}

/// Every character of `s` is white space.
pub open spec fn all_white_space(s: Seq<char>) -> bool {
    forall|i: int| 0 <= i < s.len() ==> is_white_space(#[trigger] s[i])
}

/// `needle` occurs in `hay` at position `i`.
pub open spec fn occurs_at(hay: Seq<char>, needle: Seq<char>, i: int) -> bool {
    0 <= i && i + needle.len() <= hay.len() && hay.subrange(i, i + needle.len()) == needle
}

/// `needle` occurs somewhere in `hay`, as `str::contains` with a string pattern says.
pub open spec fn contains_text(hay: Seq<char>, needle: Seq<char>) -> bool {
    exists|i: int| occurs_at(hay, needle, i)
}

/// The characters of `s`, in order.
pub fn chars_of(s: &str) -> (v: Vec<char>)
    ensures
        v@ == s@,
{
    broadcast use vstd::string::group_string_axioms;
    let mut v: Vec<char> = Vec::new();
    for c in it: s.chars()
        invariant
            v@ == it.seq().take(it.index() as int),
            it.seq() == s@,
    {
        v.push(c);
    }
    v
}

/// The text that holds the characters of `cs`, in order.
#[verifier::external_body]
pub(crate) fn text_of(cs: &[char]) -> (s: String)
    ensures
        s@ == cs@,
{
    cs.iter().collect()
}

/// Whether `needle` occurs in `hay` at position `i`.
fn occurs_at_exec(hay: &[char], needle: &[char], i: usize) -> (r: bool)
    requires
        i + needle@.len() <= hay@.len(),
    ensures
        r == occurs_at(hay@, needle@, i as int),
{
    let n = needle.len();
    let hl = hay.len();
    let mut k: usize = 0;
    while k < n
        invariant
            n == needle@.len(),
            hl == hay@.len(),
            i + n <= hay@.len(),
            k <= n,
            forall|j: int| 0 <= j < k ==> hay@[i + j] == needle@[j],
        decreases n - k,
    {
        if hay[i + k] != needle[k] {
            assert(hay@.subrange(i as int, i + n)[k as int] != needle@[k as int]);
            return false;
        }
        k = k + 1;
    }
    assert(hay@.subrange(i as int, i + n) =~= needle@);
    true
}

/// Whether `needle` occurs anywhere in `hay`.
pub fn contains_exec(hay: &[char], needle: &[char]) -> (r: bool)
    ensures
        r == contains_text(hay@, needle@),
{
    let h = hay.len();
    let n = needle.len();
    if n > h {
        assert forall|i: int| !occurs_at(hay@, needle@, i) by {}
        return false;
    }
    let last = h - n;
    let mut i: usize = 0;
    while i < last
        invariant
            h == hay@.len(),
            n == needle@.len(),
            last == h - n,
            i <= last,
            forall|j: int| 0 <= j < i ==> !occurs_at(hay@, needle@, j),
        decreases last - i,
    {
        if occurs_at_exec(hay, needle, i) {
            return true;
        }
        i = i + 1;
    }
    let found = occurs_at_exec(hay, needle, last);
    assert(!found ==> forall|j: int| !occurs_at(hay@, needle@, j));
    found
}

/// Bounds `(start, end)` such that `s[start..end]` is `s` trimmed.
pub fn trim_bounds(s: &[char]) -> (r: (usize, usize))
    ensures
        r.0 <= r.1 <= s@.len(),
        s@.subrange(r.0 as int, r.1 as int) == trimmed(s@),
{
    let len = s.len();
    let mut i: usize = 0;
    assert(s@.subrange(0, len as int) =~= s@);
    while i < len && is_white_space_char(s[i])
        invariant
            len == s@.len(),
            i <= len,
            trim_start(s@) == trim_start(s@.subrange(i as int, len as int)),
        decreases len - i,
    {
        assert(s@.subrange(i as int, len as int).drop_first() =~= s@.subrange(i + 1, len as int));
        i = i + 1;
    }
    assert(trim_start(s@) == s@.subrange(i as int, len as int));
    let mut j: usize = len;
    while j > i && is_white_space_char(s[j - 1])
        invariant
            len == s@.len(),
            i <= j <= len,
            trimmed(s@) == trim_end(s@.subrange(i as int, j as int)),
        decreases j,
    {
        assert(s@.subrange(i as int, j as int).drop_last() =~= s@.subrange(i as int, j - 1));
        j = j - 1;
    }
    (i, j)
}

/// `s` with each newline replaced by `<br>`.
pub open spec fn newlines_to_br(s: Seq<char>) -> Seq<char>
    decreases s.len(),
{
    if s.len() == 0 {
        s
    } else if s.last() == '\n' {
        newlines_to_br(s.drop_last()) + seq!['<', 'b', 'r', '>']
    } else {
        newlines_to_br(s.drop_last()).push(s.last())
    }
}

/// Replaces every newline of `s` by `<br>`, as `str::replace("\n", "<br>")` does.
pub fn replace_newlines(s: &[char]) -> (r: Vec<char>)
    ensures
        r@ == newlines_to_br(s@),
{
    let mut v: Vec<char> = Vec::new();
    let mut i: usize = 0;
    while i < s.len()
        invariant
            i <= s@.len(),
            v@ == newlines_to_br(s@.take(i as int)),
        decreases s@.len() - i,
    {
        assert(s@.take(i + 1).drop_last() =~= s@.take(i as int));
        if s[i] == '\n' {
            v.push('<');
            v.push('b');
            v.push('r');
            v.push('>');
        } else {
            v.push(s[i]);
        }
        i = i + 1;
        assert(v@ =~= newlines_to_br(s@.take(i as int)));
    }
    assert(s@.take(i as int) =~= s@);
    v
}

/// The characters of `cs` from `start` up to `end`.
pub fn sub_chars(cs: &[char], start: usize, end: usize) -> (r: Vec<char>)
    requires
        start <= end <= cs@.len(),
    ensures
        r@ == cs@.subrange(start as int, end as int),
{
    let mut v: Vec<char> = Vec::new();
    let mut i: usize = start;
    while i < end
        invariant
            start <= i <= end <= cs@.len(),
            v@ == cs@.subrange(start as int, i as int),
        decreases end - i,
    {
        v.push(cs[i]);
        i = i + 1;
        assert(v@ =~= cs@.subrange(start as int, i as int));
    }
    v
}

/// `cs` with leading and trailing white space removed.
pub fn trim_chars(cs: &[char]) -> (r: Vec<char>)
    ensures
        r@ == trimmed(cs@),
{
    let (start, end) = trim_bounds(cs);
    sub_chars(cs, start, end)
}

/// Trimming the start keeps a suffix that does not start with white space.
pub proof fn lemma_trim_start_suffix(s: Seq<char>)
    ensures
        trim_start(s).len() <= s.len(),
        trim_start(s) == s.subrange(s.len() - trim_start(s).len(), s.len() as int),
        trim_start(s).len() > 0 ==> !is_white_space(trim_start(s)[0]),
    decreases s.len(),
{
    if s.len() > 0 && is_white_space(s[0]) {
        lemma_trim_start_suffix(s.drop_first());
        let t = trim_start(s.drop_first());
        assert(s.drop_first().subrange(s.len() - 1 - t.len(), s.len() - 1) =~= s.subrange(
            s.len() - t.len(),
            s.len() as int,
        ));
    } else {
        assert(s.subrange(0, s.len() as int) =~= s);
    }
}

/// Trimming the end keeps a prefix that does not end with white space.
pub proof fn lemma_trim_end_prefix(s: Seq<char>)
    ensures
        trim_end(s).len() <= s.len(),
        trim_end(s) == s.subrange(0, trim_end(s).len() as int),
        trim_end(s).len() > 0 ==> !is_white_space(trim_end(s).last()),
    decreases s.len(),
{
    if s.len() > 0 && is_white_space(s.last()) {
        lemma_trim_end_prefix(s.drop_last());
        let t = trim_end(s.drop_last());
        assert(s.drop_last().subrange(0, t.len() as int) =~= s.subrange(0, t.len() as int));
    } else {
        assert(s.subrange(0, s.len() as int) =~= s);
    }
}

/// A trimmed text is a piece of the text that neither starts nor ends with
/// white space.
pub(crate) proof fn lemma_trimmed_piece(s: Seq<char>)
    ensures
        exists|i: int, j: int| 0 <= i <= j <= s.len() && trimmed(s) == s.subrange(i, j),
        trimmed(s).len() > 0 ==> !is_white_space(trimmed(s)[0]) && !is_white_space(trimmed(s).last()),
{
    lemma_trim_start_suffix(s);
    let t = trim_start(s);
    lemma_trim_end_prefix(t);
    let m = trim_end(t).len();
    let k = s.len() - t.len();
    assert(trimmed(s) =~= s.subrange(k, k + m));
    if m > 0 {
        assert(trimmed(s)[0] == t[0]);
    }
}

/// Trimming the start leaves nothing exactly when all is white space.
proof fn lemma_trim_start_empty(s: Seq<char>)
    ensures
        trim_start(s).len() == 0 <==> all_white_space(s),
    decreases s.len(),
{
    if s.len() > 0 && is_white_space(s[0]) {
        lemma_trim_start_empty(s.drop_first());
        if all_white_space(s.drop_first()) {
            assert forall|i: int| 0 <= i < s.len() implies is_white_space(#[trigger] s[i]) by {
                if i > 0 {
                    assert(s[i] == s.drop_first()[i - 1]);
                }
            }
        }
        if all_white_space(s) {
            assert forall|i: int| 0 <= i < s.drop_first().len() implies is_white_space(#[trigger] s.drop_first()[i]) by {
                assert(s.drop_first()[i] == s[i + 1]);
            }
        }
    } else if s.len() > 0 {
        assert(!is_white_space(s[0]));
    }
}

/// Trimming the end leaves nothing exactly when all is white space.
proof fn lemma_trim_end_empty(s: Seq<char>)
    ensures
        trim_end(s).len() == 0 <==> all_white_space(s),
    decreases s.len(),
{
    if s.len() > 0 && is_white_space(s.last()) {
        lemma_trim_end_empty(s.drop_last());
        if all_white_space(s.drop_last()) {
            assert forall|i: int| 0 <= i < s.len() implies is_white_space(#[trigger] s[i]) by {
                if i < s.len() - 1 {
                    assert(s[i] == s.drop_last()[i]);
                }
            }
        }
        if all_white_space(s) {
            assert forall|i: int| 0 <= i < s.drop_last().len() implies is_white_space(#[trigger] s.drop_last()[i]) by {
                assert(s.drop_last()[i] == s[i]);
            }
        }
    } else if s.len() > 0 {
        assert(!is_white_space(s[s.len() - 1]));
    }
}

/// A text trims to nothing exactly when every character of it is white space.
pub proof fn lemma_trimmed_empty_iff_white_space(s: Seq<char>)
    ensures
        trimmed(s).len() == 0 <==> all_white_space(s),
{
    lemma_trim_start_empty(s);
    lemma_trim_start_suffix(s);
    let t = trim_start(s);
    lemma_trim_end_empty(t);
    if t.len() > 0 {
        assert(!all_white_space(t)) by {
            assert(!is_white_space(t[0]));
        }
    }
}

/// Writing newlines as `<br>` leaves no newline.
pub proof fn lemma_newlines_to_br_one_line(s: Seq<char>)
    ensures
        forall|i: int| 0 <= i < newlines_to_br(s).len() ==> newlines_to_br(s)[i] != '\n',
    decreases s.len(),
{
    if s.len() > 0 {
        lemma_newlines_to_br_one_line(s.drop_last());
        let prev = newlines_to_br(s.drop_last());
        if s.last() == '\n' {
            assert forall|i: int| 0 <= i < newlines_to_br(s).len() implies newlines_to_br(s)[i] != '\n' by {
                if i >= prev.len() {
                    assert(newlines_to_br(s)[i] == seq!['<', 'b', 'r', '>'][i - prev.len()]);
                }
            }
        }
    }
}

} // verus!
