//! Character-level string helpers shared by the rest of the library.
use vstd::prelude::*;

verus! {

/// What `char::is_whitespace` answers for a character: the Unicode `White_Space` property.
pub uninterp spec fn unicode_white_space(c: char) -> bool;

/// Calls `char::is_whitespace`. The contract names its answer `unicode_white_space(c)`; what
/// that property holds for each character is Unicode's table, which is left unstated.
#[verifier::external_body]
pub(crate) fn is_whitespace(c: char) -> (b: bool)
    ensures
        b == unicode_white_space(c),
{
    c.is_whitespace()
}

/// The characters of `s`, in order.
pub(crate) fn str_chars(s: &str) -> (v: Vec<char>)
    ensures
        v@ == s@,
{
    broadcast use vstd::string::axiom_spec_iter;
    let mut v: Vec<char> = Vec::new();
    for c in it: s.chars()
        invariant
            v@ == it.seq().take(it.index() as int),
    {
        v.push(c);
    }
    v
}

/// Calls `String::push`: the string grows by the one character.
#[verifier::external_body]
fn push_char(s: &mut String, c: char)
    ensures
        final(s)@ == old(s)@.push(c),
{
    s.push(c);
}

/// A `String` that holds exactly the characters `v`.
pub(crate) fn string_from_chars(v: &[char]) -> (s: String)
    ensures
        s@ == v@,
{
    let mut s = String::new();
    let mut i: usize = 0;
    while i < v.len()
        invariant
            i <= v@.len(),
            s@ == v@.subrange(0, i as int),
        decreases v@.len() - i,
    {
        push_char(&mut s, v[i]);
        i = i + 1;
        assert(s@ =~= v@.subrange(0, i as int));
    }
    assert(v@.subrange(0, v@.len() as int) =~= v@);
    s
}

/// Leading characters with the `White_Space` property removed.
pub open spec fn trim_start_spec(s: Seq<char>) -> Seq<char>
    decreases s.len(),
{
    if s.len() > 0 && unicode_white_space(s[0]) {
        trim_start_spec(s.drop_first())
    } else {
        s
    }
}

/// Trailing characters with the `White_Space` property removed.
pub open spec fn trim_end_spec(s: Seq<char>) -> Seq<char>
    decreases s.len(),
{
    if s.len() > 0 && unicode_white_space(s.last()) {
        trim_end_spec(s.drop_last())
    } else {
        s
    }
}

/// What `str::trim` gives: `s` without its leading and trailing whitespace.
pub open spec fn trim_spec(s: Seq<char>) -> Seq<char> {
    trim_end_spec(trim_start_spec(s))
}

proof fn lemma_trim_start_skip(s: Seq<char>, i: int)
    requires
        0 <= i <= s.len(),
        forall|k: int| 0 <= k < i ==> unicode_white_space(#[trigger] s[k]),
    ensures
        trim_start_spec(s) == trim_start_spec(s.subrange(i, s.len() as int)),
    decreases i,
{
    if i > 0 {
        assert(s.drop_first() =~= s.subrange(1, s.len() as int));
        let t = s.drop_first();
        assert forall|k: int| 0 <= k < i - 1 implies unicode_white_space(#[trigger] t[k]) by {
            assert(t[k] == s[k + 1]);
        }
        lemma_trim_start_skip(t, i - 1);
        assert(t.subrange(i - 1, t.len() as int) =~= s.subrange(i, s.len() as int));
    } else {
        assert(s.subrange(0, s.len() as int) =~= s);
    }
}

proof fn lemma_trim_end_skip(s: Seq<char>, j: int)
    requires
        0 <= j <= s.len(),
        forall|k: int| j <= k < s.len() ==> unicode_white_space(#[trigger] s[k]),
    ensures
        trim_end_spec(s) == trim_end_spec(s.subrange(0, j)),
    decreases s.len() - j,
{
    if j < s.len() {
        let t = s.drop_last();
        assert forall|k: int| j <= k < t.len() implies unicode_white_space(#[trigger] t[k]) by {
            assert(t[k] == s[k]);
        }
        lemma_trim_end_skip(t, j);
        assert(t.subrange(0, j) =~= s.subrange(0, j));
    } else {
        assert(s.subrange(0, j) =~= s);
    }
}

/// `s` with leading and trailing whitespace removed, as `str::trim` does.
pub fn trim_chars(s: &Vec<char>) -> (r: Vec<char>)
    ensures
        r@ == trim_spec(s@),
{
    let n = s.len();
    let mut i: usize = 0;
    while i < n && is_whitespace(s[i])
        invariant
            i <= n,
            n == s@.len(),
            forall|k: int| 0 <= k < i ==> unicode_white_space(#[trigger] s@[k]),
        decreases n - i,
    {
        i = i + 1;
    }
    proof {
        lemma_trim_start_skip(s@, i as int);
    }
    let ghost rest = s@.subrange(i as int, n as int);
    assert(trim_start_spec(rest) == rest) by {
        if rest.len() > 0 {
            assert(rest[0] == s@[i as int]);
        }
    }
    let mut j: usize = n;
    while j > i && is_whitespace(s[j - 1])
        invariant
            i <= j <= n,
            n == s@.len(),
            forall|k: int| j <= k < n ==> unicode_white_space(#[trigger] s@[k]),
        decreases j - i,
    {
        j = j - 1;
    }
    proof {
        let ks = s@.subrange(i as int, n as int);
        assert forall|k: int| (j - i) <= k < ks.len() implies unicode_white_space(#[trigger] ks[k]) by {
            assert(ks[k] == s@[k + i]);
        }
        lemma_trim_end_skip(ks, j - i);
        let kept = ks.subrange(0, j - i);
        assert(kept =~= s@.subrange(i as int, j as int));
        if kept.len() > 0 {
            assert(kept.last() == s@[j - 1]);
        }
    }
    let mut r: Vec<char> = Vec::new();
    let mut k: usize = i;
    while k < j
        invariant
            i <= k <= j <= n,
            n == s@.len(),
            r@ == s@.subrange(i as int, k as int),
        decreases j - k,
    {
        r.push(s[k]);
        k = k + 1;
        assert(r@ =~= s@.subrange(i as int, k as int));
    }
    r
}

/// Whether `s` starts with `prefix`.
pub open spec fn starts_with_spec(s: Seq<char>, prefix: Seq<char>) -> bool {
    prefix.len() <= s.len() && s.subrange(0, prefix.len() as int) == prefix
}

/// Whether `s` ends with `suffix`.
pub open spec fn ends_with_spec(s: Seq<char>, suffix: Seq<char>) -> bool {
    suffix.len() <= s.len() && s.subrange(s.len() - suffix.len(), s.len() as int) == suffix
}

pub fn starts_with_chars(s: &Vec<char>, prefix: &Vec<char>) -> (b: bool)
    ensures
        b == starts_with_spec(s@, prefix@),
{
    if prefix.len() > s.len() {
        return false;
    }
    let mut k: usize = 0;
    while k < prefix.len()
        invariant
            prefix@.len() <= s@.len(),
            k <= prefix@.len(),
            forall|m: int| 0 <= m < k ==> s@[m] == prefix@[m],
        decreases prefix@.len() - k,
    {
        if s[k] != prefix[k] {
            assert(s@.subrange(0, prefix@.len() as int)[k as int] != prefix@[k as int]);
            return false;
        }
        k = k + 1;
    }
    assert(s@.subrange(0, prefix@.len() as int) =~= prefix@);
    true
}

pub fn ends_with_chars(s: &Vec<char>, suffix: &Vec<char>) -> (b: bool)
    ensures
        b == ends_with_spec(s@, suffix@),
{
    if suffix.len() > s.len() {
        return false;
    }
    let off = s.len() - suffix.len();
    let mut k: usize = 0;
    while k < suffix.len()
        invariant
            suffix@.len() <= s@.len(),
            off + suffix.len() == s.len(),
            k <= suffix@.len(),
            forall|m: int| 0 <= m < k ==> s@[off + m] == suffix@[m],
        decreases suffix@.len() - k,
    {
        if s[off + k] != suffix[k] {
            assert(s@.subrange(off as int, s@.len() as int)[k as int] != suffix@[k as int]);
            return false;
        }
        k = k + 1;
    }
    assert(s@.subrange(off as int, s@.len() as int) =~= suffix@);
    true
}

/// Whether two strings hold the same characters.
pub fn str_eq(a: &str, b: &str) -> (r: bool)
    ensures
        r == (a@ == b@),
{
    let x = str_chars(a);
    let y = str_chars(b);
    if x.len() != y.len() {
        return false;
    }
    let mut k: usize = 0;
    while k < x.len()
        invariant
            x@ == a@,
            y@ == b@,
            x@.len() == y@.len(),
            k <= x@.len(),
            forall|m: int| 0 <= m < k ==> x@[m] == y@[m],
        decreases x@.len() - k,
    {
        if x[k] != y[k] {
            assert(x@[k as int] != y@[k as int]);
            return false;
        }
        k = k + 1;
    }
    assert(x@ =~= y@);
    true
}

/// `text` with leading and trailing whitespace removed, or `None` where nothing is left.
pub open spec fn trimmed_spec(text: Seq<char>) -> Option<Seq<char>> {
    if trim_spec(text).len() == 0 {
        None
    } else {
        Some(trim_spec(text))
    }
}

/// The trimmed contents of a single-line value, or `None` where it is blank.
pub fn trimmed_text(text: &str) -> (r: Option<String>)
    ensures
        r matches Some(s) ==> trimmed_spec(text@) == Some(s@),
        r is None ==> trimmed_spec(text@) is None,
{
    let chars = str_chars(text);
    let t = trim_chars(&chars);
    if t.len() == 0 {
        None
    } else {
        Some(string_from_chars(t.as_slice()))
    }
}

} // verus!
