//! The rows the group picker offers: every group that holds an SSH target, with how many.
use vstd::prelude::*;
use crate::text::str_chars;
use crate::warpgate::{copy_opt_group, is_ssh_spec, WarpgateTarget, WarpgateTargetGroup};

verus! {

/// A row of the group picker. `None` is the `all` row.
#[derive(Debug, Clone)]
pub struct GroupRow {
    pub group: Option<WarpgateTargetGroup>,
    pub count: usize,
}

/// The groups of the SSH targets that have one, in target order, repeats included.
pub open spec fn ssh_groups(ts: Seq<WarpgateTarget>) -> Seq<WarpgateTargetGroup>
    decreases ts.len(),
{
    if ts.len() == 0 {
        Seq::empty()
    } else {
        let rest = ssh_groups(ts.drop_last());
        let t = ts.last();
        if is_ssh_spec(t@) && t.group is Some {
            rest.push(t.group.unwrap())
        } else {
            rest
        }
    }
}

/// How many SSH targets there are among `ts`.
pub open spec fn count_ssh(ts: Seq<WarpgateTarget>) -> nat
    decreases ts.len(),
{
    if ts.len() == 0 {
        0
    } else {
        count_ssh(ts.drop_last()) + if is_ssh_spec(ts.last()@) { 1nat } else { 0nat }
    }
}

/// How many of `gs` carry the name `name`.
pub open spec fn count_named(gs: Seq<WarpgateTargetGroup>, name: Seq<char>) -> nat
    decreases gs.len(),
{
    if gs.len() == 0 {
        0
    } else {
        count_named(gs.drop_last(), name) + if gs.last().name@ == name { 1nat } else { 0nat }
    }
}

/// The first of `gs` that carries the name `name`; meaningful where one does.
pub open spec fn first_named(gs: Seq<WarpgateTargetGroup>, name: Seq<char>) -> WarpgateTargetGroup
    decreases gs.len(),
{
    if gs.len() == 0 {
        arbitrary()
    } else if count_named(gs.drop_last(), name) > 0 {
        first_named(gs.drop_last(), name)
    } else {
        gs.last()
    }
}

/// Strict lexicographic order on characters, a proper prefix first: how `String`'s `Ord`
/// compares, since UTF-8 keeps the order of code points.
pub open spec fn name_lt(a: Seq<char>, b: Seq<char>) -> bool
    decreases a.len(),
{
    if a.len() == 0 {
        b.len() > 0
    } else if b.len() == 0 {
        false
    } else if a[0] != b[0] {
        a[0] < b[0]
    } else {
        name_lt(a.drop_first(), b.drop_first())
    }
}

/// The group name of a row; meaningful for the rows of actual groups.
pub open spec fn row_name(r: GroupRow) -> Seq<char> {
    match r.group {
        Some(g) => g.name@,
        None => arbitrary(),
    }
}

/// `rows` tallies `gs`: one row per group name, sorted by name, each holding the first group of
/// that name and how often the name occurs.
pub open spec fn is_group_tally(rows: Seq<GroupRow>, gs: Seq<WarpgateTargetGroup>) -> bool {
    &&& forall|i: int, j: int| 0 <= i < j < rows.len() ==> name_lt(row_name(rows[i]), row_name(rows[j]))
    &&& forall|i: int| 0 <= i < rows.len() ==> {
        &&& (#[trigger] rows[i]).group is Some
        &&& rows[i].count > 0
        &&& rows[i].count == count_named(gs, row_name(rows[i]))
        &&& rows[i].group == Some(first_named(gs, row_name(rows[i])))
    }
    &&& forall|k: int| 0 <= k < gs.len() ==> exists|i: int| 0 <= i < rows.len() && row_name(#[trigger] rows[i]) == (#[trigger] gs[k]).name@
}

proof fn lemma_name_lt_irreflexive(a: Seq<char>)
    ensures
        !name_lt(a, a),
    decreases a.len(),
{
    if a.len() > 0 {
        lemma_name_lt_irreflexive(a.drop_first());
    }
}

proof fn lemma_name_lt_asymmetric(a: Seq<char>, b: Seq<char>)
    ensures
        !(name_lt(a, b) && name_lt(b, a)),
    decreases a.len(),
{
    if a.len() > 0 && b.len() > 0 && a[0] == b[0] {
        lemma_name_lt_asymmetric(a.drop_first(), b.drop_first());
    }
}

proof fn lemma_name_lt_transitive(a: Seq<char>, b: Seq<char>, c: Seq<char>)
    requires
        name_lt(a, b),
        name_lt(b, c),
    ensures
        name_lt(a, c),
    decreases a.len(),
{
    if a.len() > 0 && b.len() > 0 && c.len() > 0 && a[0] == b[0] && b[0] == c[0] {
        lemma_name_lt_transitive(a.drop_first(), b.drop_first(), c.drop_first());
    }
}

proof fn lemma_name_lt_total(a: Seq<char>, b: Seq<char>)
    requires
        a != b,
    ensures
        name_lt(a, b) || name_lt(b, a),
    decreases a.len(),
{
    if a.len() > 0 && b.len() > 0 && a[0] == b[0] {
        if a.drop_first() == b.drop_first() {
            assert(a =~= seq![a[0]] + a.drop_first());
            assert(b =~= seq![b[0]] + b.drop_first());
        }
        lemma_name_lt_total(a.drop_first(), b.drop_first());
    } else if a.len() == 0 && b.len() == 0 {
        assert(a =~= b);
    }
}

proof fn lemma_name_lt_skip(a: Seq<char>, b: Seq<char>, k: int)
    requires
        0 <= k <= a.len(),
        k <= b.len(),
        a.subrange(0, k) == b.subrange(0, k),
    ensures
        name_lt(a, b) == name_lt(a.subrange(k, a.len() as int), b.subrange(k, b.len() as int)),
    decreases k,
{
    if k > 0 {
        assert(a[0] == a.subrange(0, k)[0]);
        assert(b[0] == b.subrange(0, k)[0]);
        let a1 = a.drop_first();
        let b1 = b.drop_first();
        assert(a1.subrange(0, k - 1) =~= a.subrange(1, k));
        assert(b1.subrange(0, k - 1) =~= b.subrange(1, k));
        assert(a.subrange(1, k) =~= a.subrange(0, k).drop_first());
        assert(b.subrange(1, k) =~= b.subrange(0, k).drop_first());
        lemma_name_lt_skip(a1, b1, k - 1);
        assert(a1.subrange(k - 1, a1.len() as int) =~= a.subrange(k, a.len() as int));
        assert(b1.subrange(k - 1, b1.len() as int) =~= b.subrange(k, b.len() as int));
    } else {
        assert(a.subrange(0, a.len() as int) =~= a);
        assert(b.subrange(0, b.len() as int) =~= b);
    }
}

/// Whether `a` sorts strictly before `b`.
fn name_less(a: &Vec<char>, b: &Vec<char>) -> (r: bool)
    ensures
        r == name_lt(a@, b@),
{
    let mut k: usize = 0;
    while k < a.len() && k < b.len() && a[k] == b[k]
        invariant
            k <= a@.len(),
            k <= b@.len(),
            a@.subrange(0, k as int) == b@.subrange(0, k as int),
        decreases a@.len() - k,
    {
        assert(a@.subrange(0, k + 1) =~= a@.subrange(0, k as int).push(a@[k as int]));
        assert(b@.subrange(0, k + 1) =~= b@.subrange(0, k as int).push(b@[k as int]));
        k = k + 1;
    }
    proof {
        lemma_name_lt_skip(a@, b@, k as int);
        let ra = a@.subrange(k as int, a@.len() as int);
        let rb = b@.subrange(k as int, b@.len() as int);
        if ra.len() > 0 && rb.len() > 0 {
            assert(ra[0] == a@[k as int]);
            assert(rb[0] == b@[k as int]);
        }
    }
    if k == a.len() {
        k < b.len()
    } else if k == b.len() {
        false
    } else {
        a[k] < b[k]
    }
}

proof fn lemma_count_named_exists(gs: Seq<WarpgateTargetGroup>, name: Seq<char>)
    requires
        count_named(gs, name) > 0,
    ensures
        exists|k: int| 0 <= k < gs.len() && (#[trigger] gs[k]).name@ == name,
    decreases gs.len(),
{
    if gs.last().name@ == name {
        assert(gs[gs.len() - 1].name@ == name);
    } else {
        lemma_count_named_exists(gs.drop_last(), name);
        let k = choose|k: int| 0 <= k < gs.drop_last().len() && (#[trigger] gs.drop_last()[k]).name@ == name;
        assert(gs[k] == gs.drop_last()[k]);
    }
}

proof fn lemma_count_named_bound(gs: Seq<WarpgateTargetGroup>, name: Seq<char>)
    ensures
        count_named(gs, name) <= gs.len(),
    decreases gs.len(),
{
    if gs.len() > 0 {
        lemma_count_named_bound(gs.drop_last(), name);
    }
}

proof fn lemma_ssh_groups_len(ts: Seq<WarpgateTarget>)
    ensures
        ssh_groups(ts).len() <= ts.len(),
    decreases ts.len(),
{
    if ts.len() > 0 {
        lemma_ssh_groups_len(ts.drop_last());
    }
}

/// How many SSH targets there are among `targets`.
pub fn count_ssh_targets(targets: &[WarpgateTarget]) -> (n: usize)
    ensures
        n == count_ssh(targets@),
{
    let mut n: usize = 0;
    let mut i: usize = 0;
    while i < targets.len()
        invariant
            i <= targets@.len(),
            n == count_ssh(targets@.subrange(0, i as int)),
            n <= i,
        decreases targets@.len() - i,
    {
        let ghost next = targets@.subrange(0, i + 1);
        assert(next.drop_last() =~= targets@.subrange(0, i as int));
        assert(next.last() == targets@[i as int]);
        if targets[i].is_ssh() {
            n = n + 1;
        }
        i = i + 1;
    }
    assert(targets@.subrange(0, targets@.len() as int) =~= targets@);
    n
}

/// One row per group that holds an SSH target, sorted by name, with the number of SSH targets
/// in it. Where several groups share a name, the first one stands for all of them.
pub fn count_groups(targets: &[WarpgateTarget]) -> (rows: Vec<GroupRow>)
    ensures
        is_group_tally(rows@, ssh_groups(targets@)),
{
    let mut rows: Vec<GroupRow> = Vec::new();
    let mut names: Vec<Vec<char>> = Vec::new();
    let mut i: usize = 0;
    while i < targets.len()
        invariant
            i <= targets@.len(),
            is_group_tally(rows@, ssh_groups(targets@.subrange(0, i as int))),
            names@.len() == rows@.len(),
            forall|r: int| 0 <= r < rows@.len() ==> (#[trigger] names@[r])@ == row_name(rows@[r]),
            forall|r: int| 0 <= r < rows@.len() ==> (#[trigger] rows@[r]).count <= i,
        decreases targets@.len() - i,
    {
        let ghost gs = ssh_groups(targets@.subrange(0, i as int));
        let ghost next = targets@.subrange(0, i + 1);
        assert(next.drop_last() =~= targets@.subrange(0, i as int));
        assert(next.last() == targets@[i as int]);
        let t = &targets[i];
        if t.is_ssh() {
            if let Some(g) = &t.group {
                let ghost gs2 = gs.push(*g);
                assert(ssh_groups(next) == gs2);
                // Look for a row of the same name.
                let mut f: usize = 0;
                let mut found = false;
                while f < rows.len() && !found
                    invariant
                        f <= rows@.len(),
                        !found ==> forall|r: int| 0 <= r < f ==> row_name(#[trigger] rows@[r]) != g.name@,
                        found ==> f < rows@.len() && row_name(rows@[f as int]) == g.name@,
                        is_group_tally(rows@, gs),
                    decreases rows@.len() - f + if found { 0int } else { 1int },
                {
                    let same = match &rows[f].group {
                        Some(rg) => rg.name == g.name,
                        None => false,
                    };
                    assert(rows@[f as int].group is Some);
                    if same {
                        found = true;
                    } else {
                        f = f + 1;
                    }
                }
                if found {
                    let ghost before = rows@;
                    let row = GroupRow { group: copy_opt_group(&rows[f].group), count: rows[f].count + 1 };
                    rows.set(f, row);
                    proof {
                        assert forall|r: int| 0 <= r < rows@.len() implies {
                            &&& (#[trigger] rows@[r]).group is Some
                            &&& rows@[r].count > 0
                            &&& rows@[r].count == count_named(gs2, row_name(rows@[r]))
                            &&& rows@[r].group == Some(first_named(gs2, row_name(rows@[r])))
                        } by {
                            assert(gs2.drop_last() == gs);
                            assert(gs2.last() == *g);
                            assert(before[r].group is Some);
                            if r == f {
                                assert(before[f as int].count > 0);
                                assert(count_named(gs, g.name@) > 0);
                            } else {
                                assert(rows@[r] == before[r]);
                                if row_name(before[r]) == g.name@ {
                                    assert(name_lt(row_name(before[r]), row_name(before[f as int]))
                                        || name_lt(row_name(before[f as int]), row_name(before[r])));
                                    lemma_name_lt_irreflexive(g.name@);
                                }
                            }
                        }
                        assert forall|k: int| 0 <= k < gs2.len() implies exists|r: int| 0 <= r < rows@.len() && row_name(#[trigger] rows@[r]) == (#[trigger] gs2[k]).name@ by {
                            if k < gs.len() {
                                assert(gs2[k] == gs[k]);
                                let r = choose|r: int| 0 <= r < before.len() && row_name(#[trigger] before[r]) == gs[k].name@;
                                assert(row_name(rows@[r]) == row_name(before[r]));
                            } else {
                                assert(row_name(rows@[f as int]) == gs2[k].name@);
                            }
                        }
                        assert forall|a: int, b: int| 0 <= a < b < rows@.len() implies name_lt(row_name(rows@[a]), row_name(rows@[b])) by {
                            assert(row_name(rows@[a]) == row_name(before[a]));
                            assert(row_name(rows@[b]) == row_name(before[b]));
                        }
                        assert forall|r: int| 0 <= r < rows@.len() implies (#[trigger] rows@[r]).count <= i + 1 by {
                            assert(before[r].count <= i);
                        }
                    }
                } else {
                    proof {
                        if count_named(gs, g.name@) > 0 {
                            lemma_count_named_exists(gs, g.name@);
                            let k = choose|k: int| 0 <= k < gs.len() && (#[trigger] gs[k]).name@ == g.name@;
                            let r = choose|r: int| 0 <= r < rows@.len() && row_name(#[trigger] rows@[r]) == gs[k].name@;
                            assert(row_name(rows@[r]) != g.name@);
                        }
                    }
                    let gname = str_chars(g.name.as_str());
                    let mut p: usize = 0;
                    while p < names.len() && name_less(&names[p], &gname)
                        invariant
                            p <= names@.len(),
                            names@.len() == rows@.len(),
                            gname@ == g.name@,
                            forall|r: int| 0 <= r < rows@.len() ==> (#[trigger] names@[r])@ == row_name(rows@[r]),
                            forall|r: int| 0 <= r < p ==> name_lt(row_name(#[trigger] rows@[r]), g.name@),
                        decreases names@.len() - p,
                    {
                        p = p + 1;
                    }
                    let ghost before = rows@;
                    let ghost before_names = names@;
                    proof {
                        if p < before.len() {
                            assert(row_name(rows@[p as int]) != g.name@);
                            assert(!name_lt(row_name(before[p as int]), g.name@));
                            lemma_name_lt_total(row_name(before[p as int]), g.name@);
                            assert(name_lt(g.name@, row_name(before[p as int])));
                        }
                    }
                    let new_row = GroupRow { group: Some(g.duplicate()), count: 1 };
                    rows.insert(p, new_row);
                    names.insert(p, gname);
                    proof {
                        assert(gs2.drop_last() == gs);
                        assert(gs2.last() == *g);
                        assert forall|r: int| 0 <= r < rows@.len() implies (#[trigger] names@[r])@ == row_name(rows@[r]) by {
                            if r < p {
                                assert(names@[r] == before_names[r]);
                                assert(rows@[r] == before[r]);
                            } else if r > p {
                                assert(names@[r] == before_names[r - 1]);
                                assert(rows@[r] == before[r - 1]);
                            }
                        }
                        assert forall|a: int, b: int| 0 <= a < b < rows@.len() implies name_lt(row_name(rows@[a]), row_name(rows@[b])) by {
                            if b < p {
                                assert(rows@[a] == before[a]);
                                assert(rows@[b] == before[b]);
                            } else if b == p {
                                assert(rows@[a] == before[a]);
                            } else if a < p {
                                assert(rows@[a] == before[a]);
                                assert(rows@[b] == before[b - 1]);
                                if b - 1 > p {
                                    lemma_name_lt_transitive(g.name@, row_name(before[p as int]), row_name(before[b - 1]));
                                }
                                lemma_name_lt_transitive(row_name(before[a]), g.name@, row_name(before[b - 1]));
                            } else if a == p {
                                assert(rows@[b] == before[b - 1]);
                                if b - 1 > p {
                                    lemma_name_lt_transitive(g.name@, row_name(before[p as int]), row_name(before[b - 1]));
                                }
                            } else {
                                assert(rows@[a] == before[a - 1]);
                                assert(rows@[b] == before[b - 1]);
                            }
                        }
                        assert forall|r: int| 0 <= r < rows@.len() implies {
                            &&& (#[trigger] rows@[r]).group is Some
                            &&& rows@[r].count > 0
                            &&& rows@[r].count == count_named(gs2, row_name(rows@[r]))
                            &&& rows@[r].group == Some(first_named(gs2, row_name(rows@[r])))
                        } by {
                            if r != p {
                                let q = if r < p { r } else { r - 1 };
                                assert(rows@[r] == before[q]);
                                assert(before[q].group is Some);
                                assert(row_name(before[q]) != g.name@);
                            }
                        }
                        assert forall|k: int| 0 <= k < gs2.len() implies exists|r: int| 0 <= r < rows@.len() && row_name(#[trigger] rows@[r]) == (#[trigger] gs2[k]).name@ by {
                            if k < gs.len() {
                                assert(gs2[k] == gs[k]);
                                let r = choose|r: int| 0 <= r < before.len() && row_name(#[trigger] before[r]) == gs[k].name@;
                                if r < p {
                                    assert(rows@[r] == before[r]);
                                } else {
                                    assert(rows@[r + 1] == before[r]);
                                }
                            } else {
                                assert(row_name(rows@[p as int]) == gs2[k].name@);
                            }
                        }
                        assert forall|r: int| 0 <= r < rows@.len() implies (#[trigger] rows@[r]).count <= i + 1 by {
                            if r < p {
                                assert(rows@[r] == before[r]);
                            } else if r > p {
                                assert(rows@[r] == before[r - 1]);
                            }
                        }
                    }
                }
            } else {
                assert(ssh_groups(next) == gs);
            }
        } else {
            assert(ssh_groups(next) == gs);
        }
        i = i + 1;
    }
    assert(targets@.subrange(0, targets@.len() as int) =~= targets@);
    rows
}

} // verus!
