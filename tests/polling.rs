use spazio_grigio_bot::directory::SubscriberDirectory;
use spazio_grigio_bot::item::{Item, Origin};
use spazio_grigio_bot::notify::{broadcast_report, render};
use spazio_grigio_bot::policy::{select, SelectionPolicy};
use spazio_grigio_bot::poll::{Notice, PollError, PollJob};
use spazio_grigio_bot::timestamp::{format_timestamp, parse_timestamp};
use spazio_grigio_bot::watermark::{advance, decode_watermark, encode_watermark, LAST_VIDEO_PUBDATE};

const DAY: i64 = 86_400_000_000_000;
const JAN_1: i64 = 1_704_067_200_000_000_000;

fn video(title: &str, at: Option<i64>) -> Item {
    Item {
        origin: Origin::VideoFeed,
        title: Some(title.to_string()),
        url: format!("https://example.org/{}", title),
        published_at: at,
        summary: None,
        body: None,
    }
}

fn job(policy: SelectionPolicy) -> PollJob {
    PollJob::new(Origin::VideoFeed, policy, LAST_VIDEO_PUBDATE.to_string())
}

/// The watermark a run commits once delivery was attempted (to nobody).
fn commit(j: &PollJob, n: &Notice) -> Option<i64> {
    j.complete(n, &vec![], &vec![]).commit
}

#[test]
fn parses_rfc3339_to_nanos() {
    assert_eq!(parse_timestamp("2024-01-01T00:00:00Z"), Some(JAN_1));
    assert_eq!(parse_timestamp("2024-01-02T00:00:00Z"), Some(JAN_1 + DAY));
    assert_eq!(parse_timestamp("2024-01-01T01:00:00+01:00"), Some(JAN_1));
    assert_eq!(parse_timestamp("yesterday"), None);
}

#[test]
fn formats_canonical_utc_text() {
    assert_eq!(format_timestamp(JAN_1 + DAY), "2024-01-02T00:00:00+00:00");
    assert_eq!(encode_watermark(JAN_1), "2024-01-01T00:00:00+00:00");
}

#[test]
fn decodes_stored_watermarks() {
    assert_eq!(decode_watermark(None), None);
    assert_eq!(decode_watermark(Some("not a date".to_string())), None);
    assert_eq!(decode_watermark(Some("2024-01-02T00:00:00+00:00".to_string())), Some(JAN_1 + DAY));
}

#[test]
fn single_latest_concrete_scenario() {
    let items = vec![
        video("first", parse_timestamp("2024-01-01T00:00:00Z")),
        video("second", parse_timestamp("2024-01-02T00:00:00Z")),
    ];
    let j = job(SelectionPolicy::SingleLatest);
    let notice = j.plan(None, &items).unwrap();
    assert_eq!(notice.index(), 1);
    let wm = commit(&j, &notice);
    assert_eq!(wm, parse_timestamp("2024-01-02T00:00:00Z"));
    assert_eq!(encode_watermark(wm.unwrap()), "2024-01-02T00:00:00+00:00");
}

#[test]
fn rerun_without_new_data_announces_nothing() {
    let items = vec![video("a", Some(JAN_1)), video("b", Some(JAN_1 + DAY))];
    let j = job(SelectionPolicy::SingleLatest);
    let first = j.plan(None, &items).unwrap();
    assert!(j.plan(commit(&j, &first), &items).is_none());
    let one = vec![video("a", Some(JAN_1))];
    let o = job(SelectionPolicy::OldestUnseen);
    let first = o.plan(None, &one).unwrap();
    assert!(o.plan(commit(&o, &first), &one).is_none());
}

#[test]
fn watermark_never_decreases() {
    let j = job(SelectionPolicy::SingleLatest);
    let newer = vec![video("b", Some(JAN_1 + DAY))];
    let older = vec![video("a", Some(JAN_1))];
    let mut wm: Option<i64> = None;
    for snapshot in [&newer, &older, &newer, &older] {
        if let Some(n) = j.plan(wm, snapshot) {
            let next = commit(&j, &n);
            assert!(next >= wm);
            wm = next;
        }
        assert_eq!(wm, Some(JAN_1 + DAY));
    }
    assert_eq!(advance(Some(JAN_1), None), Some(JAN_1));
}

#[test]
fn crash_before_commit_replays_item() {
    let items = vec![video("a", Some(JAN_1)), video("b", Some(JAN_1 + DAY))];
    let j = job(SelectionPolicy::OldestUnseen);
    let wm = Some(JAN_1 - DAY);
    let crashed = j.plan(wm, &items).unwrap();
    let replay = j.plan(wm, &items).unwrap();
    assert_eq!(crashed.index(), replay.index());
    assert_eq!(crashed.text(), replay.text());
}

#[test]
fn backlog_is_announced_one_item_per_run() {
    let items = vec![
        video("t3", Some(JAN_1 + 2 * DAY)),
        video("t1", Some(JAN_1)),
        video("t2", Some(JAN_1 + DAY)),
    ];
    let j = job(SelectionPolicy::OldestUnseen);
    let mut wm: Option<i64> = None;
    let mut seen = Vec::new();
    for _ in 0..3 {
        let n = j.plan(wm, &items).unwrap();
        seen.push(items[n.index()].title.clone().unwrap());
        wm = commit(&j, &n);
    }
    assert_eq!(seen, vec!["t1", "t2", "t3"]);
    assert!(j.plan(wm, &items).is_none());
}

#[test]
fn failed_delivery_is_isolated() {
    let items = vec![video("a", Some(JAN_1))];
    let j = job(SelectionPolicy::SingleLatest);
    let notice = j.plan(None, &items).unwrap();
    let report = j.complete(&notice, &vec![11, 22], &vec![false, true]);
    assert!(notice.text().contains("https://example.org/a"));
    assert_eq!(report.broadcast.delivered, vec![22]);
    assert_eq!(report.broadcast.failed, vec![11]);
    assert_eq!(report.commit, Some(JAN_1));
}

#[test]
fn broadcast_report_splits_by_outcome() {
    let r = broadcast_report(&vec![1, 2, 3, 4], &vec![true, false, true, false]);
    assert_eq!(r.delivered, vec![1, 3]);
    assert_eq!(r.failed, vec![2, 4]);
    let empty = broadcast_report(&vec![], &vec![]);
    assert!(empty.delivered.is_empty() && empty.failed.is_empty());
}

#[test]
fn directory_is_idempotent() {
    let mut d = SubscriberDirectory::new();
    d.unsubscribe(5);
    assert!(d.subscribed_chats().is_empty());
    d.subscribe(5);
    d.subscribe(7);
    d.subscribe(5);
    assert_eq!(d.subscribed_chats(), vec![5, 7]);
    d.unsubscribe(9);
    assert_eq!(d.subscribed_chats(), vec![5, 7]);
    d.unsubscribe(5);
    assert_eq!(d.subscribed_chats(), vec![7]);
    assert!(!d.contains(5));
    assert!(d.contains(7));
}

#[test]
fn undated_items_never_block_oldest_unseen() {
    let items = vec![video("undated", None), video("dated", Some(JAN_1 + DAY))];
    assert_eq!(select(SelectionPolicy::OldestUnseen, &items, Some(JAN_1)), Some(1));
    assert_eq!(select(SelectionPolicy::OldestUnseen, &items, None), Some(1));
    assert_eq!(select(SelectionPolicy::OldestUnseen, &vec![video("u", None)], None), None);
}

#[test]
fn undated_latest_item_counts_as_new() {
    let items = vec![video("dated", Some(JAN_1)), video("undated", None)];
    assert_eq!(select(SelectionPolicy::SingleLatest, &items, Some(JAN_1)), None);
    let undated = vec![video("x", None), video("y", None)];
    assert_eq!(select(SelectionPolicy::SingleLatest, &undated, Some(JAN_1)), Some(1));
    let j = job(SelectionPolicy::SingleLatest);
    let n = j.plan(Some(JAN_1), &undated).unwrap();
    assert_eq!(commit(&j, &n), Some(JAN_1));
}

#[test]
fn single_latest_prefers_greatest_instant() {
    let items = vec![video("b", Some(JAN_1 + DAY)), video("a", Some(JAN_1)), video("c", Some(JAN_1 + DAY))];
    assert_eq!(select(SelectionPolicy::SingleLatest, &items, None), Some(2));
    assert_eq!(select(SelectionPolicy::SingleLatest, &items, Some(JAN_1 + DAY)), None);
    assert_eq!(select(SelectionPolicy::SingleLatest, &vec![], None), None);
    assert_eq!(select(SelectionPolicy::OldestUnseen, &vec![], None), None);
}

#[test]
fn step_reports_errors_in_order() {
    let j = job(SelectionPolicy::SingleLatest);
    let items = vec![video("a", Some(JAN_1))];
    assert_eq!(j.step(Err(PollError::StoreUnavailable), Err(PollError::SourceUnavailable)).err(), Some(PollError::StoreUnavailable));
    assert_eq!(j.step(Ok(None), Err(PollError::SourceUnavailable)).err(), Some(PollError::SourceUnavailable));
    let planned = j.step(Ok(None), Ok(items)).unwrap().unwrap();
    assert_eq!(planned.index(), 0);
    assert!(j.step(Ok(Some(JAN_1)), Ok(vec![video("a", Some(JAN_1))])).unwrap().is_none());
}

#[test]
fn renders_each_origin() {
    let v = video("Minimalismo", None);
    assert_eq!(
        render(&v),
        "Ciao sono Irina. Ho appena pubblicato questo nuovo mio video: Minimalismo\n\u{1F449} https://example.org/Minimalismo"
    );
    let post = Item {
        origin: Origin::SocialFeed,
        title: None,
        url: "https://example.org/p".to_string(),
        published_at: None,
        summary: Some("riassunto".to_string()),
        body: None,
    };
    assert_eq!(
        render(&post),
        "Ciao sono Irina. Ho appena pubblicato questo nuovo mio post su Instagram: \nriassunto\n\u{1F449} https://example.org/p"
    );
    let mail = Item {
        origin: Origin::Mailbox,
        title: Some("Oggetto".to_string()),
        url: String::new(),
        published_at: Some(JAN_1),
        summary: None,
        body: Some("Testo".to_string()),
    };
    assert_eq!(render(&mail), "Ciao sono Irina.\nOggetto\n\nTesto");
}

#[test]
fn stored_watermark_reads_back_exactly() {
    for wm in [0, JAN_1, JAN_1 + 123_456_789, -DAY - 1] {
        assert_eq!(decode_watermark(Some(encode_watermark(wm))), Some(wm));
    }
}
