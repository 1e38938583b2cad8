//! The grouper: folds a flat raw sequence into period groups in first-seen
//! order, with the laws that pin down completeness and ordering.

use vstd::prelude::*;
use crate::highlights::display_of;
use crate::highlights::DisplayView;
use crate::highlights::GroupView;
use crate::highlights::Highlight;
use crate::highlights::HighlightGroup;
use crate::highlights::RawView;
use crate::highlights::StoredHighlight;

verus! {

/// The models of a sequence of raw records.
pub open spec fn raws_model(rs: Seq<StoredHighlight>) -> Seq<RawView> {
    rs.map_values(|r: StoredHighlight| r@)
}

/// The models of a sequence of groups.
pub open spec fn groups_model(gs: Seq<HighlightGroup>) -> Seq<GroupView> {
    gs.map_values(|g: HighlightGroup| g@)
}

/// The first index at or after `i` whose group carries period `p`, or the
/// length of `gs` if none does.
pub open spec fn find_from(gs: Seq<GroupView>, p: Seq<char>, i: int) -> int
    decreases gs.len() - i,
{
    if i < 0 || i >= gs.len() {
        gs.len() as int
    } else if gs[i].period == p {
        i
    } else {
        find_from(gs, p, i + 1)
    }
}

/// The first index whose group carries period `p`, or the length of `gs`.
pub open spec fn find_period(gs: Seq<GroupView>, p: Seq<char>) -> int {
    find_from(gs, p, 0)
}

/// One grouping step: the display entry of `r` is appended to the first
/// group carrying `r`'s period, or to a fresh group at the end if none does.
pub open spec fn insert_raw(gs: Seq<GroupView>, r: RawView) -> Seq<GroupView> {
    let i = find_period(gs, r.period);
    if i < gs.len() {
        gs.update(
            i,
            GroupView { period: gs[i].period, entries: gs[i].entries.push(display_of(r)) },
        )
    } else {
        gs.push(GroupView { period: r.period, entries: seq![display_of(r)] })
    }
}

/// The grouped form of a raw sequence: records folded in input order into
/// period groups kept in first-seen order.
pub open spec fn group_of(rs: Seq<RawView>) -> Seq<GroupView>
    decreases rs.len(),
{
    if rs.len() == 0 {
        Seq::empty()
    } else {
        insert_raw(group_of(rs.drop_last()), rs.last())
    }
}

/// Finds the first group carrying period `p`, returning the length of
/// `groups` if none does.
fn find_group(groups: &Vec<HighlightGroup>, p: &String) -> (j: usize)
    ensures
        j as int == find_period(groups_model(groups@), p@),
        j <= groups.len(),
        j < groups.len() ==> groups_model(groups@)[j as int].period == p@,
{
    let ghost gs = groups_model(groups@);
    let mut j: usize = 0;
    while j < groups.len()
        invariant
            j <= groups.len(),
            gs == groups_model(groups@),
            find_period(gs, p@) == find_from(gs, p@, j as int),
        decreases groups.len() - j,
    {
        if groups[j].period == *p {
            return j;
        }
        j = j + 1;
    }
    j
}

/// Groups raw records by period: one group per distinct period in
/// first-seen order, each holding the display entries of its records in
/// input order.
pub fn group_highlights(raw: &Vec<StoredHighlight>) -> (groups: Vec<HighlightGroup>)
    ensures
        groups_model(groups@) == group_of(raws_model(raw@)),
{
    let mut groups: Vec<HighlightGroup> = Vec::new();
    let mut k: usize = 0;
    while k < raw.len()
        invariant
            k <= raw.len(),
            groups_model(groups@) == group_of(raws_model(raw@).subrange(0, k as int)),
        decreases raw.len() - k,
    {
        let ghost pre = groups_model(groups@);
        let ghost rv = raw@[k as int]@;
        let h = Highlight::new(&raw[k].category, &raw[k].description);
        proof {
            assert(h@ =~~= display_of(rv));
        }
        let p = &raw[k].period;
        let j = find_group(&groups, p);
        if j < groups.len() {
            let mut g = groups.remove(j);
            g.highlights.push(h);
            groups.insert(j, g);
            proof {
                let entries = pre[j as int].entries.push(display_of(rv));
                let gv = GroupView { period: pre[j as int].period, entries: entries };
                assert(groups_model(groups@) =~~= pre.update(j as int, gv));
                assert(groups_model(groups@) =~~= insert_raw(pre, rv));
            }
        } else {
            let mut hs: Vec<Highlight> = Vec::new();
            hs.push(h);
            groups.push(HighlightGroup { period: p.clone(), highlights: hs });
            proof {
                assert(groups_model(groups@)
                    =~~= pre.push(GroupView { period: rv.period, entries: seq![display_of(rv)] }));
                assert(groups_model(groups@) =~~= insert_raw(pre, rv));
            }
        }
        proof {
            let s = raws_model(raw@);
            let t = s.subrange(0, (k + 1) as int);
            assert(t.len() == k + 1);
            assert(t.drop_last() =~= s.subrange(0, k as int));
            assert(t.last() == s[k as int]);
            assert(group_of(t) == insert_raw(group_of(s.subrange(0, k as int)), rv));
        }
        k = k + 1;
    }
    proof {
        assert(raws_model(raw@).subrange(0, k as int) =~= raws_model(raw@));
    }
    groups
}

/// The total number of entries across a sequence of groups.
pub open spec fn total_entries(gs: Seq<GroupView>) -> nat
    decreases gs.len(),
{
    if gs.len() == 0 {
        0
    } else {
        total_entries(gs.drop_last()) + gs.last().entries.len()
    }
}

/// The period labels of a sequence of groups, in order.
pub open spec fn periods_of(gs: Seq<GroupView>) -> Seq<Seq<char>> {
    gs.map_values(|g: GroupView| g.period)
}

/// The distinct periods of a raw sequence, each at its first occurrence, in
/// that order.
pub open spec fn first_seen_periods(rs: Seq<RawView>) -> Seq<Seq<char>>
    decreases rs.len(),
{
    if rs.len() == 0 {
        Seq::empty()
    } else {
        let p = first_seen_periods(rs.drop_last());
        if p.contains(rs.last().period) {
            p
        } else {
            p.push(rs.last().period)
        }
    }
}

/// The subsequence of the records carrying period `p`, in input order.
pub open spec fn with_period(rs: Seq<RawView>, p: Seq<char>) -> Seq<RawView>
    decreases rs.len(),
{
    if rs.len() == 0 {
        Seq::empty()
    } else if rs.last().period == p {
        with_period(rs.drop_last(), p).push(rs.last())
    } else {
        with_period(rs.drop_last(), p)
    }
}

/// The display entries of the records carrying period `p`, in input order.
pub open spec fn displays_of(rs: Seq<RawView>, p: Seq<char>) -> Seq<DisplayView> {
    with_period(rs, p).map_values(|r: RawView| display_of(r))
}

proof fn lemma_displays_push(rs: Seq<RawView>, r: RawView, p: Seq<char>)
    ensures
        r.period == p ==> displays_of(rs.push(r), p) == displays_of(rs, p).push(display_of(r)),
        r.period != p ==> displays_of(rs.push(r), p) == displays_of(rs, p),
{
    assert(rs.push(r).drop_last() =~= rs);
    assert(rs.push(r).last() == r);
    if r.period == p {
        assert(with_period(rs.push(r), p) == with_period(rs, p).push(r));
        assert(displays_of(rs.push(r), p) =~= displays_of(rs, p).push(display_of(r)));
    } else {
        assert(with_period(rs.push(r), p) == with_period(rs, p));
    }
}

proof fn lemma_with_period_none(rs: Seq<RawView>, p: Seq<char>)
    requires
        forall|k: int| 0 <= k < rs.len() ==> rs[k].period != p,
    ensures
        with_period(rs, p) == Seq::<RawView>::empty(),
        displays_of(rs, p) == Seq::<DisplayView>::empty(),
    decreases rs.len(),
{
    if rs.len() > 0 {
        assert(forall|k: int| 0 <= k < rs.drop_last().len() ==> rs.drop_last()[k].period != p);
        lemma_with_period_none(rs.drop_last(), p);
        assert(rs.last().period != p);
    }
    assert(displays_of(rs, p) =~= Seq::<DisplayView>::empty());
}

proof fn lemma_find_from_props(gs: Seq<GroupView>, p: Seq<char>, i: int)
    requires
        0 <= i <= gs.len(),
    ensures
        i <= find_from(gs, p, i) <= gs.len(),
        find_from(gs, p, i) < gs.len() ==> gs[find_from(gs, p, i)].period == p,
        forall|t: int| i <= t < find_from(gs, p, i) ==> gs[t].period != p,
        find_from(gs, p, i) == gs.len() ==> forall|t: int|
            i <= t < gs.len() ==> gs[t].period != p,
    decreases gs.len() - i,
{
    if i < gs.len() && gs[i].period != p {
        lemma_find_from_props(gs, p, i + 1);
    }
}

proof fn lemma_total_entries_update(gs: Seq<GroupView>, i: int, g: GroupView)
    requires
        0 <= i < gs.len(),
    ensures
        total_entries(gs.update(i, g)) + gs[i].entries.len() == total_entries(gs)
            + g.entries.len(),
    decreases gs.len(),
{
    let u = gs.update(i, g);
    if i == gs.len() - 1 {
        assert(u.drop_last() =~= gs.drop_last());
        assert(u.last() == g);
    } else {
        assert(u.drop_last() =~= gs.drop_last().update(i, g));
        assert(u.last() == gs.last());
        lemma_total_entries_update(gs.drop_last(), i, g);
    }
}

/// All the guarantees of one grouping pass together, proved by induction
/// over the raw sequence: group periods are the first-seen distinct periods
/// in order and never repeat, each group holds exactly the displays of its
/// period's records in input order, and every record's period has a group.
proof fn lemma_group_invariant(rs: Seq<RawView>)
    ensures
        periods_of(group_of(rs)) == first_seen_periods(rs),
        forall|a: int, b: int|
            0 <= a < b < group_of(rs).len() ==> group_of(rs)[a].period
                != group_of(rs)[b].period,
        forall|i: int|
            0 <= i < group_of(rs).len() ==> group_of(rs)[i].entries == displays_of(
                rs,
                group_of(rs)[i].period,
            ),
        forall|k: int|
            0 <= k < rs.len() ==> periods_of(group_of(rs)).contains(rs[k].period),
    decreases rs.len(),
{
    if rs.len() > 0 {
        let rs0 = rs.drop_last();
        let r = rs.last();
        lemma_group_invariant(rs0);
        let gs0 = group_of(rs0);
        let gs = group_of(rs);
        assert(gs == insert_raw(gs0, r));
        let i = find_period(gs0, r.period);
        lemma_find_from_props(gs0, r.period, 0);
        assert(rs =~= rs0.push(r));
        if i < gs0.len() {
            let gv = GroupView {
                period: gs0[i].period,
                entries: gs0[i].entries.push(display_of(r)),
            };
            assert(gs == gs0.update(i, gv));
            assert(periods_of(gs) =~= periods_of(gs0));
            // first-seen order: the period is already present, so the order
            // of periods does not change.
            assert(periods_of(gs0)[i] == r.period);
            assert(periods_of(gs0).contains(r.period));
            assert(first_seen_periods(rs) == first_seen_periods(rs0));
            // entries: only group i changes, by exactly the new display.
            assert forall|t: int| 0 <= t < gs.len() implies gs[t].entries == displays_of(
                rs,
                gs[t].period,
            ) by {
                lemma_displays_push(rs0, r, gs[t].period);
                if t == i {
                    assert(gs[t].period == r.period);
                    assert(displays_of(rs, gs[t].period)
                        == displays_of(rs0, gs[t].period).push(display_of(r)));
                } else {
                    assert(gs0[t].period != r.period);
                    assert(displays_of(rs, gs[t].period) == displays_of(rs0, gs[t].period));
                }
            }
            assert forall|k: int| 0 <= k < rs.len() implies periods_of(gs).contains(
                rs[k].period,
            ) by {
                if k < rs0.len() {
                    assert(periods_of(gs0).contains(rs0[k].period));
                    let a = choose|a: int|
                        0 <= a < periods_of(gs0).len() && periods_of(gs0)[a] == rs0[k].period;
                    assert(periods_of(gs)[a] == rs[k].period);
                } else {
                    assert(periods_of(gs)[i] == r.period);
                }
            }
        } else {
            let gv = GroupView { period: r.period, entries: seq![display_of(r)] };
            assert(gs == gs0.push(gv));
            assert(periods_of(gs) =~= periods_of(gs0).push(r.period));
            // first-seen order: the period is new, so it is appended.
            assert forall|a: int|
                0 <= a < periods_of(gs0).len() implies periods_of(gs0)[a] != r.period by {
                assert(gs0[a].period != r.period);
            }
            assert(!periods_of(gs0).contains(r.period));
            assert(first_seen_periods(rs) == first_seen_periods(rs0).push(r.period));
            // no record of the prefix carries the new period.
            assert forall|k: int| 0 <= k < rs0.len() implies rs0[k].period != r.period by {
                assert(periods_of(gs0).contains(rs0[k].period));
                let a = choose|a: int|
                    0 <= a < periods_of(gs0).len() && periods_of(gs0)[a] == rs0[k].period;
                assert(gs0[a].period != r.period);
            }
            lemma_with_period_none(rs0, r.period);
            assert forall|t: int| 0 <= t < gs.len() implies gs[t].entries == displays_of(
                rs,
                gs[t].period,
            ) by {
                lemma_displays_push(rs0, r, gs[t].period);
                if t < gs0.len() {
                    assert(gs0[t].period != r.period);
                    assert(displays_of(rs, gs[t].period) == displays_of(rs0, gs[t].period));
                } else {
                    assert(gs[t] == gv);
                    assert(gs[t].period == r.period);
                    assert(displays_of(rs, gs[t].period)
                        == displays_of(rs0, r.period).push(display_of(r)));
                    assert(gs[t].entries =~= displays_of(rs, gs[t].period));
                }
            }
            assert forall|k: int| 0 <= k < rs.len() implies periods_of(gs).contains(
                rs[k].period,
            ) by {
                if k < rs0.len() {
                    assert(periods_of(gs0).contains(rs0[k].period));
                    let a = choose|a: int|
                        0 <= a < periods_of(gs0).len() && periods_of(gs0)[a] == rs0[k].period;
                    assert(periods_of(gs)[a] == rs[k].period);
                } else {
                    assert(periods_of(gs)[gs0.len() as int] == r.period);
                }
            }
        }
    }
}

/// Law: grouping is complete: the total count of entries across all groups
/// equals the number of raw records.
pub proof fn lemma_grouping_preserves_count(rs: Seq<RawView>)
    ensures
        total_entries(group_of(rs)) == rs.len(),
    decreases rs.len(),
{
    if rs.len() > 0 {
        let rs0 = rs.drop_last();
        let r = rs.last();
        lemma_grouping_preserves_count(rs0);
        let gs0 = group_of(rs0);
        let i = find_period(gs0, r.period);
        lemma_find_from_props(gs0, r.period, 0);
        if i < gs0.len() {
            let gv = GroupView {
                period: gs0[i].period,
                entries: gs0[i].entries.push(display_of(r)),
            };
            lemma_total_entries_update(gs0, i, gv);
        } else {
            let gs = group_of(rs);
            assert(gs.drop_last() =~= gs0);
            assert(gs.last().entries.len() == 1);
        }
    }
}

/// Law: group order is first-seen order: the group periods are exactly the
/// distinct raw periods, each at its first occurrence, and no period repeats.
pub proof fn lemma_group_order_first_seen(rs: Seq<RawView>)
    ensures
        periods_of(group_of(rs)) == first_seen_periods(rs),
        forall|a: int, b: int|
            0 <= a < b < group_of(rs).len() ==> group_of(rs)[a].period
                != group_of(rs)[b].period,
{
    lemma_group_invariant(rs);
}

/// Law: no record is dropped, duplicated, altered, or moved across a group
/// boundary: each group holds exactly the display entries of the records
/// carrying its period, in their input order.
pub proof fn lemma_group_entries_preserved(rs: Seq<RawView>, i: int)
    requires
        0 <= i < group_of(rs).len(),
    ensures
        group_of(rs)[i].entries == displays_of(rs, group_of(rs)[i].period),
{
    lemma_group_invariant(rs);
}

/// Law: grouping is a pure function of the raw sequence: equal inputs,
/// including order, always yield structurally identical groupings.
pub proof fn lemma_grouping_deterministic(a: Seq<RawView>, b: Seq<RawView>)
    requires
        a == b,
    ensures
        group_of(a) == group_of(b),
{
}

} // verus!

