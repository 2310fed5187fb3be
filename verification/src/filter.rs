//! Narrowing the target list to what the user can connect to, ranked by the search query.
use vstd::prelude::*;
use crate::fuzzy::{
    fuzzy_match_indices, fuzzy_rank, matched_by_character, is_blank_query, is_score_ranking,
    is_sorted_set_of, match_indices, rank_names, sorted_unique, views,
};
use crate::warpgate::{filterable_name_spec, is_ssh_spec, WarpgateTarget, WarpgateTargetGroup};

verus! {

/// A target that survived filtering, with the positions in its name that the query matched.
#[derive(Debug, Clone)]
pub struct MatchedTarget {
    pub target: WarpgateTarget,
    pub name_indices: Vec<u32>,
}

/// The name of the group a filter asks for, if any.
pub open spec fn group_name_of(group: Option<WarpgateTargetGroup>) -> Option<Seq<char>> {
    match group {
        Some(g) => Some(g.name@),
        None => None,
    }
}

/// A target passes the group filter where there is none, or where its group has that name.
pub open spec fn group_admits(t: WarpgateTarget, group: Option<Seq<char>>) -> bool {
    match group {
        Some(name) => t.group matches Some(g) && g.name@ == name,
        None => true,
    }
}

/// A target is offered where it is reachable over SSH and passes the group filter.
pub open spec fn is_candidate(t: WarpgateTarget, group: Option<Seq<char>>) -> bool {
    is_ssh_spec(t@) && group_admits(t, group)
}

/// The targets that are offered, in the order they came.
pub open spec fn candidates(ts: Seq<WarpgateTarget>, group: Option<Seq<char>>) -> Seq<WarpgateTarget>
    decreases ts.len(),
{
    if ts.len() == 0 {
        Seq::empty()
    } else if is_candidate(ts.last(), group) {
        candidates(ts.drop_last(), group).push(ts.last())
    } else {
        candidates(ts.drop_last(), group)
    }
}

/// The text each candidate is ranked by.
pub open spec fn haystacks(c: Seq<WarpgateTarget>) -> Seq<Seq<char>> {
    c.map_values(|t: WarpgateTarget| filterable_name_spec(t@))
}

/// The order in which the candidates come out: their positions, as the matcher ranks them.
pub open spec fn ranking(ts: Seq<WarpgateTarget>, group: Option<Seq<char>>, query: Seq<char>) -> Seq<usize> {
    fuzzy_rank(haystacks(candidates(ts, group)), query)
}

/// `r` is what `filter_targets` returns: one entry per ranked candidate, in ranked order (each
/// candidate at most once, exactly those whose text the query matches, a better score first and
/// ties in their order), each with the sorted, duplicate-free positions the query matched in the
/// candidate's name.
pub open spec fn is_filter_result(
    r: Seq<MatchedTarget>,
    ts: Seq<WarpgateTarget>,
    group: Option<Seq<char>>,
    query: Seq<char>,
) -> bool {
    let c = candidates(ts, group);
    let ranked = ranking(ts, group, query);
    &&& is_score_ranking(ranked, haystacks(c), query)
    &&& r.len() == ranked.len()
    &&& forall|k: int| 0 <= k < r.len() ==> {
        &&& ranked[k] < c.len()
        &&& (#[trigger] r[k]).target == c[ranked[k] as int]
        &&& is_sorted_set_of(r[k].name_indices@, fuzzy_match_indices(c[ranked[k] as int].name@, query))
    }
}

/// Every candidate is reachable over SSH and passes the group filter.
pub proof fn lemma_candidates_admitted(ts: Seq<WarpgateTarget>, group: Option<Seq<char>>)
    ensures
        forall|j: int| 0 <= j < candidates(ts, group).len() ==> is_candidate(#[trigger] candidates(ts, group)[j], group),
    decreases ts.len(),
{
    if ts.len() > 0 {
        lemma_candidates_admitted(ts.drop_last(), group);
        let rest = candidates(ts.drop_last(), group);
        assert forall|j: int| 0 <= j < candidates(ts, group).len() implies is_candidate(#[trigger] candidates(ts, group)[j], group) by {
            if j < rest.len() {
                assert(candidates(ts, group)[j] == rest[j]);
            }
        }
    }
}

/// Every candidate is one of the targets.
pub proof fn lemma_candidates_from(ts: Seq<WarpgateTarget>, group: Option<Seq<char>>)
    ensures
        forall|j: int| 0 <= j < candidates(ts, group).len() ==> ts.contains(#[trigger] candidates(ts, group)[j]),
    decreases ts.len(),
{
    if ts.len() > 0 {
        let rest_ts = ts.drop_last();
        lemma_candidates_from(rest_ts, group);
        let rest = candidates(rest_ts, group);
        assert forall|j: int| 0 <= j < candidates(ts, group).len() implies ts.contains(#[trigger] candidates(ts, group)[j]) by {
            if j < rest.len() {
                assert(candidates(ts, group)[j] == rest[j]);
                let k = choose|k: int| 0 <= k < rest_ts.len() && rest_ts[k] == rest[j];
                assert(ts[k] == rest_ts[k]);
            } else {
                assert(ts[ts.len() - 1] == candidates(ts, group)[j]);
            }
        }
    }
}

/// A sorted, duplicate-free copy of nothing is empty.
proof fn lemma_sorted_set_of_empty(r: Seq<u32>, s: Seq<u32>)
    requires
        is_sorted_set_of(r, s),
        s.len() == 0,
    ensures
        r.len() == 0,
{
    if r.len() > 0 {
        assert(r.contains(r[0]));
    }
}

proof fn lemma_candidates_step(ts: Seq<WarpgateTarget>, i: int, group: Option<Seq<char>>)
    requires
        0 <= i < ts.len(),
    ensures
        candidates(ts.subrange(0, i + 1), group) == if is_candidate(ts[i], group) {
            candidates(ts.subrange(0, i), group).push(ts[i])
        } else {
            candidates(ts.subrange(0, i), group)
        },
{
    let s = ts.subrange(0, i + 1);
    assert(s.drop_last() =~= ts.subrange(0, i));
    assert(s.last() == ts[i]);
}

/// Narrows `targets` to the SSH ones in `group`, then ranks them against `query` by fuzzy match.
pub fn filter_targets(
    targets: &[WarpgateTarget],
    group: Option<&WarpgateTargetGroup>,
    query: &str,
) -> (r: Vec<MatchedTarget>)
    ensures
        is_filter_result(
            r@,
            targets@,
            match group {
                Some(g) => Some(g.name@),
                None => None,
            },
            query@,
        ),
        forall|k: int| 0 <= k < r@.len() ==> is_candidate(#[trigger] r@[k].target, match group {
            Some(g) => Some(g.name@),
            None => None,
        }),
        forall|k: int, p: int| 0 <= k < r@.len() && 0 <= p < r@[k].name_indices@.len()
            && matched_by_character(r@[k].target.name@) ==> (#[trigger] r@[k].name_indices@[p]) < r@[k].target.name@.len(),
        is_blank_query(query@) ==> {
            let c = candidates(targets@, match group {
                Some(g) => Some(g.name@),
                None => None,
            });
            &&& r@.len() == c.len()
            &&& forall|k: int| 0 <= k < r@.len() ==> (#[trigger] r@[k]).target == c[k]
                && r@[k].name_indices@.len() == 0
        },
{
    let ghost gname = match group {
        Some(g) => Some(g.name@),
        None => None::<Seq<char>>,
    };
    let mut cand: Vec<WarpgateTarget> = Vec::new();
    let mut hay: Vec<String> = Vec::new();
    let mut i: usize = 0;
    while i < targets.len()
        invariant
            i <= targets@.len(),
            gname == match group {
                Some(g) => Some(g.name@),
                None => None::<Seq<char>>,
            },
            cand@ == candidates(targets@.subrange(0, i as int), gname),
            views(hay@) == haystacks(cand@),
            hay@.len() == cand@.len(),
        decreases targets@.len() - i,
    {
        let t = &targets[i];
        let admitted = match group {
            Some(g) => match &t.group {
                Some(tg) => tg.name == g.name,
                None => false,
            },
            None => true,
        };
        proof {
            lemma_candidates_step(targets@, i as int, gname);
        }
        if t.is_ssh() && admitted {
            let ghost old_hay = hay@;
            let ghost old_cand = cand@;
            let copy = t.duplicate();
            let name = t.filterable_name();
            cand.push(copy);
            hay.push(name);
            assert(views(hay@) =~= haystacks(cand@)) by {
                assert(views(old_hay) == haystacks(old_cand));
                assert forall|k: int| 0 <= k < hay@.len() implies views(hay@)[k] == haystacks(cand@)[k] by {
                    if k < old_hay.len() {
                        assert(views(old_hay)[k] == haystacks(old_cand)[k]);
                        assert(hay@[k] == old_hay[k]);
                        assert(cand@[k] == old_cand[k]);
                    } else {
                        assert(hay@[k] == name);
                        assert(cand@[k] == copy);
                    }
                }
            }
        }
        i = i + 1;
    }
    assert(targets@.subrange(0, targets@.len() as int) =~= targets@);
    let ranked = rank_names(&hay, query);
    let mut out: Vec<MatchedTarget> = Vec::new();
    let mut k: usize = 0;
    while k < ranked.len()
        invariant
            k <= ranked@.len(),
            cand@ == candidates(targets@, gname),
            ranked@ == ranking(targets@, gname, query@),
            ranked@ == fuzzy_rank(views(hay@), query@),
            is_score_ranking(ranked@, views(hay@), query@),
            views(hay@) == haystacks(cand@),
            forall|m: int| 0 <= m < ranked@.len() ==> (#[trigger] ranked@[m]) < hay@.len(),
            hay@.len() == cand@.len(),
            out@.len() == k,
            forall|m: int| 0 <= m < k ==> {
                &&& (#[trigger] out@[m]).target == cand@[ranked@[m] as int]
                &&& is_sorted_set_of(out@[m].name_indices@, fuzzy_match_indices(cand@[ranked@[m] as int].name@, query@))
                &&& matched_by_character(out@[m].target.name@) ==> forall|p: int| 0 <= p < out@[m].name_indices@.len() ==> #[trigger] out@[m].name_indices@[p] < out@[m].target.name@.len()
                &&& is_blank_query(query@) ==> out@[m].name_indices@.len() == 0
            },
        decreases ranked@.len() - k,
    {
        let index = ranked[k];
        let t = &cand[index];
        let raw = match_indices(t.name.as_str(), query);
        let name_indices = sorted_unique(&raw);
        proof {
            assert forall|p: int| 0 <= p < name_indices@.len() && matched_by_character(t.name@) implies #[trigger] name_indices@[p] < t.name@.len() by {
                assert(name_indices@.contains(name_indices@[p]));
                assert(raw@.contains(name_indices@[p]));
            }
            if is_blank_query(query@) {
                lemma_sorted_set_of_empty(name_indices@, raw@);
            }
        }
        let copy = t.duplicate();
        out.push(MatchedTarget { target: copy, name_indices });
        k = k + 1;
    }
    proof {
        lemma_candidates_admitted(targets@, gname);
        assert forall|m: int| 0 <= m < out@.len() implies is_candidate(#[trigger] out@[m].target, gname) by {
            assert(out@[m].target == cand@[ranked@[m] as int]);
        }
    }
    out
}

} // verus!
