//! The poll job: one source, one watermark key, one selection policy.
//!
//! A run reads the watermark, fetches the candidates, selects at most one
//! item, broadcasts its notification to every subscriber and only then
//! commits the new watermark. The caller performs each outside step and
//! hands its outcome to the decisions here.

use vstd::prelude::*;

use crate::item::{dates_of, Item, Origin};
use crate::notify::{broadcast_report, notification_text, targets_with, BroadcastReport};
use crate::policy::{select, selection, SelectionPolicy};
use crate::watermark::{advance, advanced};

verus! {

/// Why a run stopped before selecting an item.
#[derive(Clone, Copy, Debug, PartialEq, Eq, Structural)]
pub enum PollError {
    /// The source could not be fetched or parsed.
    SourceUnavailable,
    /// The watermark store could not be read.
    StoreUnavailable,
}

/// One configured poll job.
#[derive(Debug)]
pub struct PollJob {
    pub origin: Origin,
    pub policy: SelectionPolicy,
    pub key: String,
}

/// What a run announces: the selected item and its notification. The
/// watermark to write is kept inside and handed out only by
/// `PollJob::complete`, once delivery was attempted for every subscriber.
#[derive(Debug)]
pub struct Notice {
    index: usize,
    text: String,
    commit: Option<i64>,
}

impl Notice {
    /// Position of the announced item among the fetched ones.
    pub closed spec fn item_index(&self) -> usize {
        self.index
    }

    /// The notification text.
    pub closed spec fn message(&self) -> Seq<char> {
        self.text@
    }

    /// The watermark that completing this run commits.
    pub closed spec fn commit_of(&self) -> Option<i64> {
        self.commit
    }

    /// Position of the announced item among the fetched ones.
    pub fn index(&self) -> (r: usize)
        ensures
            r == self.item_index(),
    {
        self.index
    }

    /// The notification text.
    pub fn text(&self) -> (r: &str)
        ensures
            r@ == self.message(),
    {
        self.text.as_str()
    }
}

/// How a run that selected an item ended.
#[derive(Debug)]
pub struct RunReport {
    pub broadcast: BroadcastReport,
    pub commit: Option<i64>,
}

/// The watermark after one complete run on a source whose items are
/// published at `s`.
pub open spec fn after_run(policy: SelectionPolicy, s: Seq<Option<i64>>, wm: Option<i64>) -> Option<i64> {
    match selection(policy, s, wm) {
        Some(i) => advanced(wm, s[i]),
        None => wm,
    }
}

/// `n` is the notice that a run under `policy` owes for `items` and `wm`.
pub open spec fn notice_for(policy: SelectionPolicy, items: Seq<Item>, wm: Option<i64>, n: Notice) -> bool {
    &&& selection(policy, dates_of(items), wm) == Some(n.item_index() as int)
    &&& n.item_index() < items.len()
    &&& n.message() == notification_text(items[n.item_index() as int])
    &&& n.commit_of() == advanced(wm, items[n.item_index() as int].published_at)
}

impl PollJob {
    /// A job announcing items of `origin` under `policy`, with its watermark
    /// stored at `key`.
    pub fn new(origin: Origin, policy: SelectionPolicy, key: String) -> (r: PollJob)
        ensures
            r.origin == origin,
            r.policy == policy,
            r.key@ == key@,
    {
        PollJob { origin, policy, key }
    }

    /// Selects the item to announce under watermark `wm`, if any, with its
    /// notification and the watermark to commit after delivery.
    pub fn plan(&self, wm: Option<i64>, items: &Vec<Item>) -> (r: Option<Notice>)
        ensures
            r is None <==> selection(self.policy, dates_of(items@), wm) is None,
            r matches Some(n) ==> notice_for(self.policy, items@, wm, n),
    {
        match select(self.policy, items, wm) {
            Some(i) => {
                let text = crate::notify::render(&items[i]);
                let commit = advance(wm, items[i].published_at);
                Some(Notice { index: i, text, commit })
            },
            None => None,
        }
    }

    /// Steps one to three of a run: a failed watermark read aborts it first,
    /// then a failed fetch; otherwise the run plans as `plan` does.
    pub fn step(
        &self,
        watermark: Result<Option<i64>, PollError>,
        fetched: Result<Vec<Item>, PollError>,
    ) -> (r: Result<Option<Notice>, PollError>)
        ensures
            watermark is Err ==> r == Err::<Option<Notice>, PollError>(PollError::StoreUnavailable),
            watermark is Ok && fetched is Err ==> r == Err::<Option<Notice>, PollError>(
                PollError::SourceUnavailable,
            ),
            watermark matches Ok(wm) ==> fetched matches Ok(items) ==> r matches Ok(o) && (o is None
                <==> selection(self.policy, dates_of(items@), wm) is None) && (o matches Some(n)
                ==> notice_for(self.policy, items@, wm, n)),
    {
        match watermark {
            Err(_) => Err(PollError::StoreUnavailable),
            Ok(wm) => match fetched {
                Err(_) => Err(PollError::SourceUnavailable),
                Ok(items) => Ok(self.plan(wm, &items)),
            },
        }
    }

    /// Ends a run once a send was attempted to every target: the outcome of
    /// each send is recorded, and the watermark commit is the planned one
    /// whatever those outcomes were.
    pub fn complete(&self, notice: &Notice, targets: &Vec<i64>, sent: &Vec<bool>) -> (r: RunReport)
        requires
            targets.len() == sent.len(),
        ensures
            r.commit == notice.commit_of(),
            r.broadcast.delivered@ == targets_with(targets@, sent@, true),
            r.broadcast.failed@ == targets_with(targets@, sent@, false),
    {
        RunReport { broadcast: broadcast_report(targets, sent), commit: notice.commit }
    }
}

} // verus!
