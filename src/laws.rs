//! Properties of polling that hold across runs, proved over the models that
//! the functions' contracts use.

use vstd::prelude::*;

use crate::notify::targets_with;
use crate::item::{dates_of, Item};
use crate::poll::{after_run, notice_for, Notice};
use crate::policy::{
    is_newer, lemma_oldest_unseen_in_range, lemma_oldest_unseen_least, lemma_oldest_unseen_none,
    lemma_selection_unseen, most_recent, selection, SelectionPolicy,
};

verus! {

/// The watermark after a sequence of runs, the k-th on a source whose items
/// are published at `snaps[k]`; a run with `commits[k]` false stopped (a
/// crash, a failed write) after selecting and before its commit.
pub open spec fn after_runs(
    policy: SelectionPolicy,
    snaps: Seq<Seq<Option<i64>>>,
    commits: Seq<bool>,
    wm: Option<i64>,
) -> Option<i64>
    decreases snaps.len(),
{
    if snaps.len() == 0 || commits.len() < snaps.len() {
        wm
    } else {
        let k = snaps.len() - 1;
        let before = after_runs(policy, snaps.drop_last(), commits.subrange(0, k), wm);
        if commits[k] {
            after_run(policy, snaps[k], before)
        } else {
            before
        }
    }
}

/// The watermark that a planned notice commits is the watermark after that
/// run.
pub proof fn lemma_plan_commits_after_run(policy: SelectionPolicy, items: Seq<Item>, wm: Option<i64>, n: Notice)
    requires
        notice_for(policy, items, wm, n),
    ensures
        n.commit_of() matches Some(c) ==> after_run(policy, dates_of(items), wm) == Some(c),
        n.commit_of() is None ==> after_run(policy, dates_of(items), wm) == wm,
{
}

/// Running a job twice on an unchanged snapshot: the second run announces
/// nothing. An undated most recent item is always new and a backlog is
/// announced one item per run, so this needs, under single-latest, the most
/// recent item to carry an instant and, under oldest-unseen, the items dated
/// after the watermark to share one instant.
pub proof fn lemma_rerun_announces_nothing(policy: SelectionPolicy, s: Seq<Option<i64>>, wm: Option<i64>)
    requires
        policy == SelectionPolicy::SingleLatest ==> (most_recent(s) matches Some(j) ==> s[j] is Some),
        policy == SelectionPolicy::OldestUnseen ==> forall|i: int, j: int|
            0 <= i < s.len() && 0 <= j < s.len() && is_newer(wm, s[i]) && is_newer(wm, s[j]) ==> s[i] == s[j],
    ensures
        selection(policy, s, after_run(policy, s, wm)) is None,
{
    lemma_selection_unseen(policy, s, wm);
    let w2 = after_run(policy, s, wm);
    lemma_selection_unseen(policy, s, w2);
    match policy {
        SelectionPolicy::SingleLatest => {},
        SelectionPolicy::OldestUnseen => {
            lemma_oldest_unseen_in_range(s, wm);
            lemma_oldest_unseen_none(s, wm);
            lemma_oldest_unseen_none(s, w2);
            if let Some(i) = selection(policy, s, wm) {
                assert forall|k: int| 0 <= k < s.len() implies !is_newer(w2, s[k]) by {
                    if is_newer(w2, s[k]) {
                        assert(is_newer(wm, s[k]));
                    }
                }
            }
        },
    }
}

/// A run over mails, which always carry a date, under single-latest: a
/// second run on the same inbox announces nothing.
pub proof fn lemma_dated_rerun_announces_nothing(s: Seq<Option<i64>>, wm: Option<i64>)
    requires
        forall|i: int| 0 <= i < s.len() ==> s[i] is Some,
    ensures
        selection(SelectionPolicy::SingleLatest, s, after_run(SelectionPolicy::SingleLatest, s, wm)) is None,
{
    lemma_selection_unseen(SelectionPolicy::SingleLatest, s, wm);
    lemma_rerun_announces_nothing(SelectionPolicy::SingleLatest, s, wm);
}

/// One run never lowers a watermark.
pub proof fn lemma_run_never_lowers(policy: SelectionPolicy, s: Seq<Option<i64>>, wm: Option<i64>)
    ensures
        wm matches Some(w) ==> after_run(policy, s, wm) matches Some(v) && w <= v,
{
    lemma_selection_unseen(policy, s, wm);
}

/// The stored watermark never decreases across any sequence of runs, crashed
/// or completed, on any snapshots.
pub proof fn lemma_watermark_monotone(
    policy: SelectionPolicy,
    snaps: Seq<Seq<Option<i64>>>,
    commits: Seq<bool>,
    wm: Option<i64>,
)
    ensures
        wm matches Some(w) ==> after_runs(policy, snaps, commits, wm) matches Some(v) && w <= v,
    decreases snaps.len(),
{
    if snaps.len() > 0 && commits.len() >= snaps.len() {
        let k = snaps.len() - 1;
        lemma_watermark_monotone(policy, snaps.drop_last(), commits.subrange(0, k), wm);
        let before = after_runs(policy, snaps.drop_last(), commits.subrange(0, k), wm);
        lemma_run_never_lowers(policy, snaps[k], before);
    }
}

/// A run that stops after selecting an item and before its commit leaves the
/// watermark as it was, so the next run on the same snapshot selects the
/// same item again.
pub proof fn lemma_crash_replays_item(policy: SelectionPolicy, s: Seq<Option<i64>>, wm: Option<i64>)
    ensures
        after_runs(policy, seq![s], seq![false], wm) == wm,
        selection(policy, s, after_runs(policy, seq![s], seq![false], wm)) == selection(policy, s, wm),
{
    let snaps = seq![s];
    let commits = seq![false];
    assert(snaps.drop_last() =~= Seq::<Seq<Option<i64>>>::empty());
    assert(commits[0] == false);
    assert(after_runs(policy, snaps.drop_last(), commits.subrange(0, 0), wm) == wm);
}

/// The one position of `s` holding the instant `t`, where `s` holds three
/// distinct instants at `p1`, `p2`, `p3`.
proof fn lemma_position_of(s: Seq<Option<i64>>, p1: int, p2: int, p3: int, i: int)
    requires
        s.len() == 3,
        0 <= p1 < 3 && 0 <= p2 < 3 && 0 <= p3 < 3,
        p1 != p2 && p2 != p3 && p1 != p3,
        0 <= i < 3,
    ensures
        i == p1 || i == p2 || i == p3,
{
}

/// Under oldest-unseen, three items with ascending instants `t1 < t2 < t3`,
/// in any order of the feed, and no watermark: three runs announce one item
/// each, `t1`, then `t2`, then `t3`; a fourth run announces nothing.
pub proof fn lemma_backlog_one_per_run(
    s: Seq<Option<i64>>,
    p1: int,
    p2: int,
    p3: int,
    t1: i64,
    t2: i64,
    t3: i64,
)
    requires
        s.len() == 3,
        0 <= p1 < 3 && 0 <= p2 < 3 && 0 <= p3 < 3,
        p1 != p2 && p2 != p3 && p1 != p3,
        s[p1] == Some(t1) && s[p2] == Some(t2) && s[p3] == Some(t3),
        t1 < t2 < t3,
    ensures
        ({
            let p = SelectionPolicy::OldestUnseen;
            let w1 = after_run(p, s, None);
            let w2 = after_run(p, s, w1);
            let w3 = after_run(p, s, w2);
            &&& selection(p, s, None) == Some(p1)
            &&& w1 == Some(t1)
            &&& selection(p, s, w1) == Some(p2)
            &&& w2 == Some(t2)
            &&& selection(p, s, w2) == Some(p3)
            &&& w3 == Some(t3)
            &&& selection(p, s, w3) is None
        }),
{
    let w0: Option<i64> = None;
    let ws = seq![w0, Some(t1), Some(t2), Some(t3)];
    let ps = seq![p1, p2, p3];
    assert forall|r: int| 0 <= r < 3 implies #[trigger] crate::policy::oldest_unseen(s, ws[r]) == Some(ps[r]) by {
        let w = ws[r];
        lemma_oldest_unseen_none(s, w);
        lemma_oldest_unseen_in_range(s, w);
        lemma_oldest_unseen_least(s, w);
        assert(is_newer(w, s[ps[r]]));
        let i = crate::policy::oldest_unseen(s, w).unwrap();
        lemma_position_of(s, p1, p2, p3, i);
        assert(s[i].unwrap() <= s[ps[r]].unwrap());
    }
    assert(crate::policy::oldest_unseen(s, ws[0]) == Some(ps[0]));
    assert(crate::policy::oldest_unseen(s, ws[1]) == Some(ps[1]));
    assert(crate::policy::oldest_unseen(s, ws[2]) == Some(ps[2]));
    lemma_oldest_unseen_none(s, Some(t3));
    assert forall|k: int| 0 <= k < s.len() implies !is_newer(Some(t3), s[k]) by {
        lemma_position_of(s, p1, p2, p3, k);
    }
}

/// Per-recipient isolation: a failed send to one target neither hides
/// another target's successful delivery nor is lost from the report.
pub proof fn lemma_isolated_delivery(targets: Seq<i64>, sent: Seq<bool>, i: int)
    requires
        targets.len() == sent.len(),
        0 <= i < targets.len(),
    ensures
        sent[i] ==> targets_with(targets, sent, true).contains(targets[i]),
        !sent[i] ==> targets_with(targets, sent, false).contains(targets[i]),
    decreases targets.len(),
{
    let k = targets.len() - 1;
    let want = sent[i];
    if i < k {
        let t = targets.drop_last();
        let s = sent.subrange(0, k);
        lemma_isolated_delivery(t, s, i);
        let rest = targets_with(t, s, want);
        assert(rest.contains(t[i]));
        let j = choose|j: int| 0 <= j < rest.len() && rest[j] == t[i];
        if sent[k] == want {
            assert(targets_with(targets, sent, want)[j] == targets[i]);
        }
    } else {
        let rest = targets_with(targets.drop_last(), sent.subrange(0, k), want);
        assert(targets_with(targets, sent, want)[rest.len() as int] == targets[i]);
    }
}

} // verus!
