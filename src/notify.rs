//! Notification text and per-recipient broadcast results.

use vstd::prelude::*;

use crate::item::{Item, Origin};

verus! {

/// The text of an optional field; empty where it is absent.
pub open spec fn text_of(o: Option<String>) -> Seq<char> {
    match o {
        Some(s) => s@,
        None => Seq::empty(),
    }
}

/// The notification announcing `item`, by origin.
pub open spec fn notification_text(item: Item) -> Seq<char> {
    match item.origin {
        Origin::Mailbox => "Ciao sono Irina.\n"@ + text_of(item.title) + "\n\n"@ + text_of(item.body),
        Origin::VideoFeed => "Ciao sono Irina. Ho appena pubblicato questo nuovo mio video: "@
            + text_of(item.title) + "\n\u{1F449} "@ + item.url@,
        Origin::SocialFeed => "Ciao sono Irina. Ho appena pubblicato questo nuovo mio post su Instagram: "@
            + text_of(item.title) + "\n"@ + text_of(item.summary) + "\n\u{1F449} "@ + item.url@,
    }
}

fn append_opt(s: &mut String, o: &Option<String>)
    ensures
        final(s)@ == old(s)@ + text_of(*o),
{
    match o {
        Some(t) => s.append(t.as_str()),
        None => {},
    }
}

/// Renders the notification announcing `item`.
pub fn render(item: &Item) -> (r: String)
    ensures
        r@ == notification_text(*item),
{
    match item.origin {
        Origin::Mailbox => {
            let mut s = String::from_str("Ciao sono Irina.\n");
            append_opt(&mut s, &item.title);
            s.append("\n\n");
            append_opt(&mut s, &item.body);
            s
        },
        Origin::VideoFeed => {
            let mut s = String::from_str("Ciao sono Irina. Ho appena pubblicato questo nuovo mio video: ");
            append_opt(&mut s, &item.title);
            s.append("\n\u{1F449} ");
            s.append(item.url.as_str());
            s
        },
        Origin::SocialFeed => {
            let mut s = String::from_str(
                "Ciao sono Irina. Ho appena pubblicato questo nuovo mio post su Instagram: ",
            );
            append_opt(&mut s, &item.title);
            s.append("\n");
            append_opt(&mut s, &item.summary);
            s.append("\n\u{1F449} ");
            s.append(item.url.as_str());
            s
        },
    }
}

/// The targets whose delivery outcome equals `want`, in order.
pub open spec fn targets_with(targets: Seq<i64>, sent: Seq<bool>, want: bool) -> Seq<i64>
    decreases targets.len(),
{
    if targets.len() == 0 {
        Seq::empty()
    } else {
        let rest = targets_with(targets.drop_last(), sent.subrange(0, targets.len() - 1), want);
        if sent[targets.len() - 1] == want {
            rest.push(targets.last())
        } else {
            rest
        }
    }
}

/// Per-recipient outcome of one broadcast.
#[derive(Debug)]
pub struct BroadcastReport {
    pub delivered: Vec<i64>,
    pub failed: Vec<i64>,
}

/// Splits the targets of a broadcast by the outcome of each send; a failed
/// send affects no other target.
pub fn broadcast_report(targets: &Vec<i64>, sent: &Vec<bool>) -> (r: BroadcastReport)
    requires
        targets.len() == sent.len(),
    ensures
        r.delivered@ == targets_with(targets@, sent@, true),
        r.failed@ == targets_with(targets@, sent@, false),
{
    let mut delivered: Vec<i64> = Vec::new();
    let mut failed: Vec<i64> = Vec::new();
    let mut i: usize = 0;
    while i < targets.len()
        invariant
            0 <= i <= targets.len(),
            targets.len() == sent.len(),
            delivered@ == targets_with(targets@.subrange(0, i as int), sent@.subrange(0, i as int), true),
            failed@ == targets_with(targets@.subrange(0, i as int), sent@.subrange(0, i as int), false),
        decreases targets.len() - i,
    {
        proof {
            assert(targets@.subrange(0, i + 1).drop_last() =~= targets@.subrange(0, i as int));
            assert(sent@.subrange(0, i + 1).subrange(0, i as int) =~= sent@.subrange(0, i as int));
        }
        if sent[i] {
            delivered.push(targets[i]);
        } else {
            failed.push(targets[i]);
        }
        i += 1;
    }
    assert(targets@.subrange(0, targets.len() as int) =~= targets@);
    assert(sent@.subrange(0, sent.len() as int) =~= sent@);
    BroadcastReport { delivered, failed }
}

} // verus!
