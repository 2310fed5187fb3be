//! Deriving the SSH login and the bastion host from the configured values.
use vstd::prelude::*;
use crate::text::{str_chars, string_from_chars, starts_with_chars, starts_with_spec};

verus! {

/// The login Warpgate routes on: the account, a colon, then the target to forward to.
pub open spec fn ssh_username_spec(warpgate_username: Seq<char>, target_name: Seq<char>) -> Seq<char> {
    warpgate_username + ":"@ + target_name
}

/// The login Warpgate routes on: the account, then the target it should be forwarded to.
pub fn warpgate_ssh_username(warpgate_username: &str, target_name: &str) -> (s: String)
    ensures
        s@ == ssh_username_spec(warpgate_username@, target_name@),
{
    proof {
        reveal_strlit(":");
    }
    let mut s = String::from_str(warpgate_username);
    s.append(":");
    s.append(target_name);
    s
}

pub open spec fn is_host_separator(c: char) -> bool {
    c == ':' || c == '/'
}

/// The text up to the first `:` or `/`, or all of it where neither occurs.
pub open spec fn host_prefix(s: Seq<char>) -> Seq<char>
    decreases s.len(),
{
    if s.len() == 0 || is_host_separator(s[0]) {
        Seq::empty()
    } else {
        seq![s[0]] + host_prefix(s.drop_first())
    }
}

/// What follows the scheme of an `https://` or `http://` URL; `None` for any other text.
/// The scheme is matched case-sensitively.
pub open spec fn after_scheme(url: Seq<char>) -> Option<Seq<char>> {
    if starts_with_spec(url, "https://"@) {
        Some(url.subrange(8, url.len() as int))
    } else if starts_with_spec(url, "http://"@) {
        Some(url.subrange(7, url.len() as int))
    } else {
        None
    }
}

/// The host of a Warpgate URL: what stands between the scheme and the first `:` or `/`, where
/// that is not empty.
pub open spec fn domain_spec(url: Seq<char>) -> Option<Seq<char>> {
    match after_scheme(url) {
        Some(rest) => if host_prefix(rest).len() == 0 {
            None
        } else {
            Some(host_prefix(rest))
        },
        None => None,
    }
}

proof fn lemma_host_prefix(s: Seq<char>, k: int)
    requires
        0 <= k <= s.len(),
        forall|m: int| 0 <= m < k ==> !is_host_separator(#[trigger] s[m]),
        k == s.len() || is_host_separator(s[k]),
    ensures
        host_prefix(s) == s.subrange(0, k),
    decreases k,
{
    if k == 0 {
        assert(s.subrange(0, 0) =~= Seq::<char>::empty());
    } else {
        let t = s.drop_first();
        assert forall|m: int| 0 <= m < k - 1 implies !is_host_separator(#[trigger] t[m]) by {
            assert(t[m] == s[m + 1]);
        }
        if k - 1 < t.len() {
            assert(t[k - 1] == s[k]);
        }
        lemma_host_prefix(t, k - 1);
        assert(seq![s[0]] + t.subrange(0, k - 1) =~= s.subrange(0, k));
    }
}

/// The bastion host named by a Warpgate URL, or `None` where the URL has no `http(s)://` scheme
/// or no host after it. Anything up to the first `:` or `/` counts as the host, user info
/// included.
pub fn get_domain_from_warpgate_url(url: &str) -> (r: Option<String>)
    ensures
        r matches Some(s) ==> domain_spec(url@) == Some(s@),
        r is None ==> domain_spec(url@) is None,
{
    proof {
        reveal_strlit("https://");
        reveal_strlit("http://");
    }
    let chars = str_chars(url);
    let https = str_chars("https://");
    let http = str_chars("http://");
    let start: usize = if starts_with_chars(&chars, &https) {
        8
    } else if starts_with_chars(&chars, &http) {
        7
    } else {
        return None;
    };
    let ghost rest = chars@.subrange(start as int, chars@.len() as int);
    assert(after_scheme(url@) == Some(rest));
    let mut k: usize = start;
    while k < chars.len() && !(chars[k] == ':' || chars[k] == '/')
        invariant
            start <= k <= chars@.len(),
            rest == chars@.subrange(start as int, chars@.len() as int),
            forall|m: int| start <= m < k ==> !is_host_separator(#[trigger] chars@[m]),
        decreases chars@.len() - k,
    {
        k = k + 1;
    }
    proof {
        assert forall|m: int| 0 <= m < k - start implies !is_host_separator(#[trigger] rest[m]) by {
            assert(rest[m] == chars@[m + start]);
        }
        if k < chars@.len() {
            assert(rest[k - start] == chars@[k as int]);
        }
        lemma_host_prefix(rest, k - start);
        assert(rest.subrange(0, k - start) =~= chars@.subrange(start as int, k as int));
    }
    if k == start {
        return None;
    }
    let mut host: Vec<char> = Vec::new();
    let mut m: usize = start;
    while m < k
        invariant
            start <= m <= k <= chars@.len(),
            host@ == chars@.subrange(start as int, m as int),
        decreases k - m,
    {
        host.push(chars[m]);
        m = m + 1;
        assert(host@ =~= chars@.subrange(start as int, m as int));
    }
    Some(string_from_chars(host.as_slice()))
}

} // verus!
