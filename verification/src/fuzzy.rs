//! Fuzzy ranking by `nucleo_matcher`, and the bookkeeping around its results.
use vstd::prelude::*;
use nucleo_matcher::pattern::{CaseMatching, Normalization, Pattern};

verus! {

/// The order in which `nucleo_matcher` ranks `names` against `query`: the indices of the names
/// that match, best score first. The scoring itself is the matcher's and is left unstated.
pub uninterp spec fn fuzzy_rank(names: Seq<Seq<char>>, query: Seq<char>) -> Seq<usize>;

/// The character positions in `name` that `nucleo_matcher` reports for `query`, in the order
/// the pattern's words produced them.
pub uninterp spec fn fuzzy_match_indices(name: Seq<char>, query: Seq<char>) -> Seq<u32>;

/// A query made of spaces alone (the empty query included) parses to a pattern without words,
/// which matches everything.
pub open spec fn is_blank_query(query: Seq<char>) -> bool {
    forall|i: int| 0 <= i < query.len() ==> query[i] == ' '
}

/// The characters of each string.
pub open spec fn views(names: Seq<String>) -> Seq<Seq<char>> {
    names.map_values(|s: String| s@)
}

/// `0, 1, ..., n - 1`.
pub open spec fn identity_order(n: nat) -> Seq<usize> {
    Seq::new(n, |i: int| i as usize)
}

/// Every entry is a position in a list of `n`, and none occurs twice.
pub open spec fn distinct_positions(r: Seq<usize>, n: nat) -> bool {
    &&& forall|i: int| 0 <= i < r.len() ==> (#[trigger] r[i]) < n
    &&& forall|i: int, j: int| 0 <= i < j < r.len() ==> r[i] != r[j]
}

/// The score `Pattern::score` gives `name` for `query`, with the pattern and matcher settings
/// `rank_names` uses: `None` where the name does not match. How the score is computed is the
/// matcher's and is left unstated.
pub uninterp spec fn fuzzy_score(name: Seq<char>, query: Seq<char>) -> Option<u32>;

/// Entry `a` (scored `sa`) comes before entry `b` (scored `sb`): a better score first, and
/// among equal scores the earlier entry.
pub open spec fn ranks_before(sa: u32, a: usize, sb: u32, b: usize) -> bool {
    sa > sb || (sa == sb && a < b)
}

/// `r` ranks `names` against `query` as a stable sort by score does: each position at most once,
/// exactly the names that match, a better score first and ties in their order in `names`.
pub open spec fn is_score_ranking(r: Seq<usize>, names: Seq<Seq<char>>, query: Seq<char>) -> bool {
    &&& distinct_positions(r, names.len())
    &&& forall|i: int| 0 <= i < names.len() ==> (r.contains(i as usize) <==> #[trigger] fuzzy_score(names[i], query) is Some)
    &&& forall|p: int, q: int| 0 <= p < q < r.len() ==> ranks_before(
        fuzzy_score(names[#[trigger] r[p] as int], query).unwrap(),
        r[p],
        fuzzy_score(names[#[trigger] r[q] as int], query).unwrap(),
        r[q],
    )
}

/// One name offered to the matcher, remembered with its position in the list.
pub struct RankedName<'a> {
    pub index: usize,
    pub name: &'a str,
}

impl<'a> AsRef<str> for RankedName<'a> {
    fn as_ref(&self) -> (s: &str)
        ensures
            s@ == self.name@,
    {
        self.name
    }
}

/// Ranks `names` against `query`, returning the indices of the ones that matched, best first.
///
/// Calls `Pattern::parse` (case ignored, smart normalisation) and `Pattern::match_list` with a
/// path-matching `Matcher`. `match_list` scores each item with `Pattern::score`, keeps those
/// with a score, and sorts them by score, best first, with a stable sort; without pattern words
/// it returns every item in its order. The result is named `fuzzy_rank`; the scores are named
/// `fuzzy_score`, and what they are is not stated.
#[verifier::external_body]
pub fn rank_names(names: &Vec<String>, query: &str) -> (ranked: Vec<usize>)
    ensures
        ranked@ == fuzzy_rank(views(names@), query@),
        is_score_ranking(ranked@, views(names@), query@),
        forall|i: int| 0 <= i < names@.len()
            ==> (ranked@.contains(i as usize) <==> #[trigger] fuzzy_score(names@[i]@, query@) is Some),
        is_blank_query(query@) ==> ranked@ == identity_order(names@.len()),
{
    let mut matcher = nucleo_matcher::Matcher::new(nucleo_matcher::Config::DEFAULT.match_paths());
    Pattern::parse(query, CaseMatching::Ignore, Normalization::Smart)
        .match_list(
            names.iter().enumerate().map(|(index, name)| RankedName { index, name: name.as_str() }),
            &mut matcher,
        )
        .into_iter()
        .map(|(ranked, _)| ranked.index)
        .collect()
}

/// Every character is ASCII.
pub open spec fn is_ascii_text(s: Seq<char>) -> bool {
    forall|i: int| 0 <= i < s.len() ==> (#[trigger] s[i] as u32) < 128
}

/// The matcher counts the positions of `name` in characters or graphemes, not bytes: the name
/// is ASCII, or its first character (which starts its first grapheme) is not.
pub open spec fn matched_by_character(name: Seq<char>) -> bool {
    is_ascii_text(name) || (name.len() > 0 && (name[0] as u32) >= 128)
}

/// The positions in `name` that `query` matched, as `Pattern::indices` reports them.
///
/// Calls `Pattern::parse` as `rank_names` does and `Pattern::indices` on `Utf32Str::new(name)`.
/// For an ASCII name the matcher works on its bytes, which are its characters; for a name with a
/// grapheme that starts with a non-ASCII character it works on the graphemes, of which there are
/// no more than characters. Either way each position is below the name's length; this is stated
/// where the name is ASCII or starts with a non-ASCII character. Where every grapheme starts with
/// an ASCII character and the name is not ASCII, positions are bytes and may pass the length.
/// A blank query has no words and reports nothing. Which positions come back is named
/// `fuzzy_match_indices`.
#[verifier::external_body]
pub(crate) fn match_indices(name: &str, query: &str) -> (indices: Vec<u32>)
    ensures
        indices@ == fuzzy_match_indices(name@, query@),
        matched_by_character(name@) ==> forall|i: int| 0 <= i < indices@.len() ==> (#[trigger] indices@[i]) < name@.len(),
        is_blank_query(query@) ==> indices@.len() == 0,
{
    let mut matcher = nucleo_matcher::Matcher::new(nucleo_matcher::Config::DEFAULT.match_paths());
    let pattern = Pattern::parse(query, CaseMatching::Ignore, Normalization::Smart);
    let mut buffer = Vec::new();
    let mut indices = Vec::new();
    pattern.indices(nucleo_matcher::Utf32Str::new(name, &mut buffer), &mut matcher, &mut indices);
    indices
}

/// Strictly increasing: sorted, with nothing twice.
pub open spec fn strictly_increasing(s: Seq<u32>) -> bool {
    forall|i: int, j: int| 0 <= i < j < s.len() ==> s[i] < s[j]
}

/// `r` holds the values of `s`, sorted, each once.
pub open spec fn is_sorted_set_of(r: Seq<u32>, s: Seq<u32>) -> bool {
    &&& strictly_increasing(r)
    &&& forall|x: u32| r.contains(x) <==> s.contains(x)
}

/// The values of `values` in increasing order, each once: what `sort_unstable` followed by
/// `dedup` leaves.
pub fn sorted_unique(values: &Vec<u32>) -> (r: Vec<u32>)
    ensures
        is_sorted_set_of(r@, values@),
{
    let mut r: Vec<u32> = Vec::new();
    let mut i: usize = 0;
    while i < values.len()
        invariant
            i <= values@.len(),
            strictly_increasing(r@),
            forall|x: u32| r@.contains(x) <==> values@.subrange(0, i as int).contains(x),
        decreases values@.len() - i,
    {
        let v = values[i];
        // Find where `v` belongs.
        let mut p: usize = 0;
        while p < r.len() && r[p] < v
            invariant
                p <= r@.len(),
                strictly_increasing(r@),
                forall|q: int| 0 <= q < p ==> r@[q] < v,
            decreases r@.len() - p,
        {
            p = p + 1;
        }
        let ghost before = r@;
        if p < r.len() && r[p] == v {
            assert(before[p as int] == v);
            assert(before.contains(v));
            assert forall|x: u32| r@.contains(x) <==> (before.contains(x) || x == v) by {}
        } else {
            r.insert(p, v);
            proof {
                assert forall|a: int, b: int| 0 <= a < b < r@.len() implies r@[a] < r@[b] by {
                    if b < p {
                    } else if b == p {
                    } else if a < p {
                        assert(r@[b] == before[b - 1]);
                        if p < before.len() {
                            assert(before[p as int] > v);
                        }
                    } else if a == p {
                        assert(r@[b] == before[b - 1]);
                        assert(before[p as int] > v);
                        if b - 1 > p {
                            assert(before[p as int] < before[b - 1]);
                        }
                    } else {
                        assert(r@[a] == before[a - 1]);
                        assert(r@[b] == before[b - 1]);
                    }
                }
                assert forall|x: u32| r@.contains(x) <==> (before.contains(x) || x == v) by {
                    if r@.contains(x) {
                        let k = choose|k: int| 0 <= k < r@.len() && r@[k] == x;
                        if k < p {
                            assert(before[k] == x);
                        } else if k > p {
                            assert(before[k - 1] == x);
                        }
                    }
                    if before.contains(x) {
                        let k = choose|k: int| 0 <= k < before.len() && before[k] == x;
                        if k < p {
                            assert(r@[k] == x);
                        } else {
                            assert(r@[k + 1] == x);
                        }
                    }
                    if x == v {
                        assert(r@[p as int] == v);
                    }
                }
            }
        }
        proof {
            let old_prefix = values@.subrange(0, i as int);
            let new_prefix = values@.subrange(0, i + 1);
            assert(new_prefix =~= old_prefix.push(v));
            assert forall|x: u32| new_prefix.contains(x) <==> (old_prefix.contains(x) || x == v) by {
                if new_prefix.contains(x) {
                    let k = choose|k: int| 0 <= k < new_prefix.len() && new_prefix[k] == x;
                    if k < i {
                        assert(old_prefix[k] == x);
                    }
                }
                if old_prefix.contains(x) {
                    let k = choose|k: int| 0 <= k < old_prefix.len() && old_prefix[k] == x;
                    assert(new_prefix[k] == x);
                }
                if x == v {
                    assert(new_prefix[i as int] == v);
                }
            }
            assert forall|x: u32| r@.contains(x) <==> new_prefix.contains(x) by {
                assert(r@.contains(x) <==> (before.contains(x) || x == v));
                assert(before.contains(x) <==> old_prefix.contains(x));
            }
        }
        i = i + 1;
    }
    assert(values@.subrange(0, values@.len() as int) =~= values@);
    r
}

} // verus!
