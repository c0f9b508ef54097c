//! What each source contributes: picking among fetched entries and mails,
//! and the daily morning-routine video.

use vstd::prelude::*;

use crate::item::{dates_of, Item};
use crate::mail::{from_sender, last_from, mail_item, Message};
use crate::policy::{index_of, oldest_unseen, oldest_unseen_index};

verus! {

/// The newsletter inbox.
pub struct Newsletter;

impl Newsletter {
    /// Position of the latest mail from `from` among the inbox `messages`,
    /// which come in order of arrival.
    pub fn get_latest_message(messages: &Vec<Message>, from: &str) -> (r: Option<usize>)
        ensures
            index_of(r) == last_from(messages@, from@),
    {
        let sender = String::from_str(from);
        let mut i: usize = messages.len();
        assert(messages@.subrange(0, i as int) =~= messages@);
        while i > 0
            invariant
                0 <= i <= messages.len(),
                sender@ == from@,
                last_from(messages@, from@) == last_from(messages@.subrange(0, i as int), from@),
            decreases i,
        {
            proof {
                assert(messages@.subrange(0, i as int).drop_last() =~= messages@.subrange(0, i - 1));
            }
            if messages[i - 1].sender_address == sender {
                return Some(i - 1);
            }
            i -= 1;
        }
        None
    }
}

impl Newsletter {
    /// The items announcing every mail from `from` among the inbox
    /// `messages`, in order; the single-latest policy then picks the one with
    /// the latest date.
    pub fn items_from(messages: &Vec<Message>, from: &str) -> (r: Vec<Item>)
        ensures
            r@.len() == from_sender(messages@, from@).len(),
            forall|i: int| 0 <= i < r@.len() ==> mail_item(#[trigger] from_sender(messages@, from@)[i], r@[i]),
    {
        let sender = String::from_str(from);
        let mut r: Vec<Item> = Vec::new();
        let mut i: usize = 0;
        while i < messages.len()
            invariant
                0 <= i <= messages.len(),
                sender@ == from@,
                r@.len() == from_sender(messages@.subrange(0, i as int), from@).len(),
                forall|k: int| 0 <= k < r@.len() ==> mail_item(
                    #[trigger] from_sender(messages@.subrange(0, i as int), from@)[k],
                    r@[k],
                ),
            decreases messages.len() - i,
        {
            proof {
                assert(messages@.subrange(0, i + 1).drop_last() =~= messages@.subrange(0, i as int));
            }
            if messages[i].sender_address == sender {
                let it = messages[i].to_item();
                r.push(it);
            }
            i += 1;
        }
        assert(messages@.subrange(0, messages.len() as int) =~= messages@);
        r
    }
}

/// The video feed of the channel.
pub struct Youtube;

impl Youtube {
    /// Position of the latest video of a feed, which lists the newest first;
    /// `None` for an empty feed.
    pub fn get_latest_video(entries: &Vec<Item>) -> (r: Option<usize>)
        ensures
            entries.len() == 0 ==> r is None,
            entries.len() > 0 ==> r == Some(0usize),
    {
        if entries.len() > 0 { Some(0) } else { None }
    }

    /// Position of the oldest video published after `last_video_pubdate`;
    /// with no date stored, the oldest of all.
    pub fn get_oldest_unseen_video(entries: &Vec<Item>, last_video_pubdate: Option<i64>) -> (r: Option<usize>)
        ensures
            index_of(r) == oldest_unseen(dates_of(entries@), last_video_pubdate),
    {
        oldest_unseen_index(entries, last_video_pubdate)
    }
}

/// The social feed, read through an RSSHub instance.
pub struct RssHubClient;

impl RssHubClient {
    /// Position of the latest post of a feed, which lists the newest first;
    /// `None` for an empty feed.
    pub fn get_latest_post(entries: &Vec<Item>) -> (r: Option<usize>)
        ensures
            entries.len() == 0 ==> r is None,
            entries.len() > 0 ==> r == Some(0usize),
    {
        if entries.len() > 0 { Some(0) } else { None }
    }

    /// Position of the oldest post published after `last_update`; with no
    /// date stored, the oldest of all.
    pub fn get_oldest_unseen_post(entries: &Vec<Item>, last_update: Option<i64>) -> (r: Option<usize>)
        ensures
            index_of(r) == oldest_unseen(dates_of(entries@), last_update),
    {
        oldest_unseen_index(entries, last_update)
    }
}

/// The morning-routine videos offered as a good-morning greeting.
pub open spec fn morning_videos() -> Seq<Seq<char>> {
    seq![
        "https://www.youtube.com/watch?v=rRQP8PNEouo"@,
        "https://www.youtube.com/watch?v=zuJ6rWQ_2vE"@,
        "https://www.youtube.com/watch?v=-eOJWZCYJV0"@,
        "https://www.youtube.com/watch?v=ZEHVgvLAv6Q"@,
        "https://www.youtube.com/watch?v=tMZmKRk54bQ"@,
        "https://www.youtube.com/watch?v=5IDjxQKCUGY"@,
        "https://www.youtube.com/watch?v=iB5aW-csDiU"@,
        "https://www.youtube.com/watch?v=-eOJWZCYJV0"@,
        "https://www.youtube.com/watch?v=ZEHVgvLAv6Q"@,
        "https://www.youtube.com/watch?v=_uN7hvoZdmE"@,
        "https://www.youtube.com/watch?v=55RyTo4U818"@,
    ]
}

/// Number of morning-routine videos.
pub const MORNING_VIDEO_COUNT: usize = 11;

/// Relies on rand's `thread_rng().gen_range`, which returns a value of the
/// half-open range and panics only on an empty one.
#[verifier::external_body]
fn random_below(n: usize) -> (r: usize)
    requires
        n > 0,
    ensures
        r < n,
{
    rand::Rng::gen_range(&mut rand::thread_rng(), 0..n)
}

/// The greeting that offers the morning-routine video at `video`.
pub open spec fn good_morning_text(video: Seq<char>) -> Seq<char> {
    "Buongiorno sono Irina. Segui la mia morning routine per cominciare la tua giornata \u{1F449} "@ + video
}

/// The morning routine.
pub struct MorningRoutine;

impl MorningRoutine {
    /// The morning-routine video at position `i`.
    pub fn video(i: usize) -> (r: &'static str)
        requires
            i < MORNING_VIDEO_COUNT,
        ensures
            r@ == morning_videos()[i as int],
    {
        if i == 0 {
            "https://www.youtube.com/watch?v=rRQP8PNEouo"
        } else if i == 1 {
            "https://www.youtube.com/watch?v=zuJ6rWQ_2vE"
        } else if i == 2 {
            "https://www.youtube.com/watch?v=-eOJWZCYJV0"
        } else if i == 3 {
            "https://www.youtube.com/watch?v=ZEHVgvLAv6Q"
        } else if i == 4 {
            "https://www.youtube.com/watch?v=tMZmKRk54bQ"
        } else if i == 5 {
            "https://www.youtube.com/watch?v=5IDjxQKCUGY"
        } else if i == 6 {
            "https://www.youtube.com/watch?v=iB5aW-csDiU"
        } else if i == 7 {
            "https://www.youtube.com/watch?v=-eOJWZCYJV0"
        } else if i == 8 {
            "https://www.youtube.com/watch?v=ZEHVgvLAv6Q"
        } else if i == 9 {
            "https://www.youtube.com/watch?v=_uN7hvoZdmE"
        } else {
            "https://www.youtube.com/watch?v=55RyTo4U818"
        }
    }

    /// A morning-routine video picked at random.
    pub fn get_random() -> (r: &'static str)
        ensures
            morning_videos().contains(r@),
    {
        let i = random_below(MORNING_VIDEO_COUNT);
        let r = Self::video(i);
        assert(morning_videos()[i as int] == r@);
        r
    }

    /// The greeting that offers `video`.
    pub fn greeting(video: &str) -> (r: String)
        ensures
            r@ == good_morning_text(video@),
    {
        let mut s = String::from_str(
            "Buongiorno sono Irina. Segui la mia morning routine per cominciare la tua giornata \u{1F449} ",
        );
        s.append(video);
        s
    }

    /// A good-morning greeting with a video picked at random.
    pub fn good_morning() -> (r: String)
        ensures
            exists|v: Seq<char>| morning_videos().contains(v) && r@ == good_morning_text(v),
    {
        let video = Self::get_random();
        Self::greeting(video)
    }
}

} // verus!
