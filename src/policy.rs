//! Selection policies: which fetched item, if any, is new relative to the
//! stored watermark.

use vstd::prelude::*;

use crate::item::{dates_of, Item};

verus! {

/// Rule that decides which fetched item a poll announces.
#[derive(Clone, Copy, Debug, PartialEq, Eq, Structural)]
pub enum SelectionPolicy {
    /// Announce the most recent item, if it is newer than the watermark.
    SingleLatest,
    /// Announce the oldest item newer than the watermark, one per run.
    OldestUnseen,
}

/// An item published at `at` is new relative to watermark `wm`: there is no
/// watermark yet, the item has no instant, or it is strictly later.
pub open spec fn is_unseen(wm: Option<i64>, at: Option<i64>) -> bool {
    match (wm, at) {
        (Some(w), Some(t)) => w < t,
        _ => true,
    }
}

/// An item published at `at` is dated strictly after watermark `wm` (any
/// dated item where there is no watermark yet).
pub open spec fn is_newer(wm: Option<i64>, at: Option<i64>) -> bool {
    match (wm, at) {
        (Some(w), Some(t)) => w < t,
        (None, Some(_)) => true,
        _ => false,
    }
}

/// Position of the item with the greatest instant, the last one among
/// equals; `None` where no item has an instant.
pub open spec fn latest_dated(s: Seq<Option<i64>>) -> Option<int>
    decreases s.len(),
{
    if s.len() == 0 {
        None
    } else {
        let k = s.len() - 1;
        let p = latest_dated(s.drop_last());
        match s[k] {
            None => p,
            Some(t) => match p {
                None => Some(k),
                Some(j) => match s[j] {
                    Some(u) => if u <= t { Some(k) } else { Some(j) },
                    None => Some(k),
                },
            },
        }
    }
}

/// Position of the most recent item: the latest dated one, or where no item
/// has an instant, the last one the source returned.
pub open spec fn most_recent(s: Seq<Option<i64>>) -> Option<int> {
    match latest_dated(s) {
        Some(j) => Some(j),
        None => if s.len() > 0 { Some(s.len() - 1) } else { None },
    }
}

/// Single-latest selection: the most recent item, if it is unseen.
pub open spec fn select_latest(s: Seq<Option<i64>>, wm: Option<i64>) -> Option<int> {
    match most_recent(s) {
        Some(j) => if is_unseen(wm, s[j]) { Some(j) } else { None },
        None => None,
    }
}

/// Oldest-unseen selection: among the items dated after the watermark, the
/// earliest, the first one among equals. Undated items are never selected:
/// they carry no instant that could advance the watermark.
pub open spec fn oldest_unseen(s: Seq<Option<i64>>, wm: Option<i64>) -> Option<int>
    decreases s.len(),
{
    if s.len() == 0 {
        None
    } else {
        let k = s.len() - 1;
        let p = oldest_unseen(s.drop_last(), wm);
        if !is_newer(wm, s[k]) {
            p
        } else {
            match p {
                None => Some(k),
                Some(j) => match (s[k], s[j]) {
                    (Some(x), Some(y)) => if x < y { Some(k) } else { Some(j) },
                    _ => Some(j),
                },
            }
        }
    }
}

/// The position a policy selects among items published at `s`.
pub open spec fn selection(policy: SelectionPolicy, s: Seq<Option<i64>>, wm: Option<i64>) -> Option<int> {
    match policy {
        SelectionPolicy::SingleLatest => select_latest(s, wm),
        SelectionPolicy::OldestUnseen => oldest_unseen(s, wm),
    }
}

/// An executable position seen as a mathematical one.
pub open spec fn index_of(r: Option<usize>) -> Option<int> {
    match r {
        Some(i) => Some(i as int),
        None => None,
    }
}

/// Position of the most recent item (see `most_recent`).
pub fn most_recent_index(items: &Vec<Item>) -> (r: Option<usize>)
    ensures
        index_of(r) == most_recent(dates_of(items@)),
{
    let ghost s = dates_of(items@);
    let mut best: Option<usize> = None;
    let mut i: usize = 0;
    while i < items.len()
        invariant
            0 <= i <= items.len(),
            s == dates_of(items@),
            index_of(best) == latest_dated(s.subrange(0, i as int)),
            best matches Some(j) ==> j < i && s[j as int] is Some,
        decreases items.len() - i,
    {
        proof {
            assert(s.subrange(0, i + 1).drop_last() =~= s.subrange(0, i as int));
        }
        if let Some(t) = items[i].published_at {
            match best {
                None => {
                    best = Some(i);
                },
                Some(j) => {
                    match items[j].published_at {
                        Some(u) => {
                            if u <= t {
                                best = Some(i);
                            }
                        },
                        None => {
                            best = Some(i);
                        },
                    }
                },
            }
        }
        i += 1;
    }
    assert(s.subrange(0, items.len() as int) =~= s);
    match best {
        Some(j) => Some(j),
        None => if items.len() > 0 { Some(items.len() - 1) } else { None },
    }
}

/// Position of the earliest item dated after watermark `wm` (the first
/// among equals); `None` where no item is dated after it.
pub fn oldest_unseen_index(items: &Vec<Item>, wm: Option<i64>) -> (r: Option<usize>)
    ensures
        index_of(r) == oldest_unseen(dates_of(items@), wm),
{
    let ghost s = dates_of(items@);
    let mut best: Option<usize> = None;
    let mut i: usize = 0;
    while i < items.len()
        invariant
            0 <= i <= items.len(),
            s == dates_of(items@),
            index_of(best) == oldest_unseen(s.subrange(0, i as int), wm),
            best matches Some(j) ==> j < i,
        decreases items.len() - i,
    {
        proof {
            assert(s.subrange(0, i + 1).drop_last() =~= s.subrange(0, i as int));
        }
        let at = items[i].published_at;
        let newer = match (wm, at) {
            (Some(w), Some(t)) => w < t,
            (None, Some(_)) => true,
            _ => false,
        };
        if newer {
            match best {
                None => {
                    best = Some(i);
                },
                Some(j) => {
                    let earlier = match (at, items[j].published_at) {
                        (Some(x), Some(y)) => x < y,
                        _ => false,
                    };
                    if earlier {
                        best = Some(i);
                    }
                },
            }
        }
        i += 1;
    }
    assert(s.subrange(0, items.len() as int) =~= s);
    best
}

/// Position of the item that `policy` announces under watermark `wm`, if any.
pub fn select(policy: SelectionPolicy, items: &Vec<Item>, wm: Option<i64>) -> (r: Option<usize>)
    ensures
        index_of(r) == selection(policy, dates_of(items@), wm),
        r matches Some(i) ==> i < items.len(),
{
    proof {
        lemma_selection_unseen(policy, dates_of(items@), wm);
    }
    match policy {
        SelectionPolicy::SingleLatest => {
            match most_recent_index(items) {
                Some(j) => {
                    let at = items[j].published_at;
                    let unseen = match (wm, at) {
                        (Some(w), Some(t)) => w < t,
                        _ => true,
                    };
                    if unseen { Some(j) } else { None }
                },
                None => None,
            }
        },
        SelectionPolicy::OldestUnseen => oldest_unseen_index(items, wm),
    }
}

/// The latest dated position lies in range and holds an instant.
pub proof fn lemma_latest_dated_in_range(s: Seq<Option<i64>>)
    ensures
        latest_dated(s) matches Some(j) ==> 0 <= j < s.len() && s[j] is Some,
    decreases s.len(),
{
    if s.len() > 0 {
        lemma_latest_dated_in_range(s.drop_last());
    }
}

/// The oldest-unseen position lies in range and is dated after the
/// watermark.
pub proof fn lemma_oldest_unseen_in_range(s: Seq<Option<i64>>, wm: Option<i64>)
    ensures
        oldest_unseen(s, wm) matches Some(j) ==> 0 <= j < s.len() && is_newer(wm, s[j]),
    decreases s.len(),
{
    if s.len() > 0 {
        lemma_oldest_unseen_in_range(s.drop_last(), wm);
    }
}

/// Whatever a policy selects lies in range and is unseen.
pub proof fn lemma_selection_unseen(policy: SelectionPolicy, s: Seq<Option<i64>>, wm: Option<i64>)
    ensures
        selection(policy, s, wm) matches Some(j) ==> 0 <= j < s.len() && is_unseen(wm, s[j]),
        most_recent(s) matches Some(j) ==> 0 <= j < s.len(),
{
    lemma_latest_dated_in_range(s);
    lemma_oldest_unseen_in_range(s, wm);
}

/// The oldest-unseen position holds the least instant among the items dated
/// after the watermark, and no earlier position holds the same one.
pub proof fn lemma_oldest_unseen_least(s: Seq<Option<i64>>, wm: Option<i64>)
    ensures
        oldest_unseen(s, wm) matches Some(i) ==> forall|j: int|
            0 <= j < s.len() && is_newer(wm, s[j]) ==> (s[i].unwrap() <= s[j].unwrap() && (s[j] == s[i]
                ==> i <= j)),
    decreases s.len(),
{
    if s.len() > 0 {
        let p = s.drop_last();
        lemma_oldest_unseen_least(p, wm);
        lemma_oldest_unseen_in_range(p, wm);
        lemma_oldest_unseen_in_range(s, wm);
        lemma_oldest_unseen_none(p, wm);
        if let Some(i) = oldest_unseen(s, wm) {
            assert forall|j: int| 0 <= j < s.len() && is_newer(wm, s[j]) implies (s[i].unwrap()
                <= s[j].unwrap() && (s[j] == s[i] ==> i <= j)) by {
                if let Some(pj) = oldest_unseen(p, wm) {
                    assert(p[pj] == s[pj]);
                }
                if j < s.len() - 1 {
                    assert(p[j] == s[j]);
                    assert(is_newer(wm, p[j]));
                }
            }
        }
    }
}

/// Oldest-unseen selection finds nothing exactly when no item is dated
/// after the watermark.
pub proof fn lemma_oldest_unseen_none(s: Seq<Option<i64>>, wm: Option<i64>)
    ensures
        oldest_unseen(s, wm) is None <==> forall|k: int| 0 <= k < s.len() ==> !is_newer(wm, s[k]),
    decreases s.len(),
{
    if s.len() > 0 {
        let p = s.drop_last();
        lemma_oldest_unseen_none(p, wm);
        if oldest_unseen(s, wm) is None {
            assert forall|k: int| 0 <= k < s.len() implies !is_newer(wm, s[k]) by {
                if k < s.len() - 1 {
                    assert(p[k] == s[k]);
                }
            }
        } else {
            lemma_oldest_unseen_in_range(s, wm);
        }
    }
}

} // verus!
