use spazio_grigio_bot::config::Config;
use spazio_grigio_bot::item::{Item, Origin};
use spazio_grigio_bot::policy::SelectionPolicy;
use spazio_grigio_bot::poll::PollJob;
use spazio_grigio_bot::mail::Message;
use spazio_grigio_bot::sources::{MorningRoutine, Newsletter, RssHubClient, Youtube};
use spazio_grigio_bot::store::{RedisClient, RedisRepository};

fn entry(at: Option<i64>) -> Item {
    Item {
        origin: Origin::SocialFeed,
        title: None,
        url: String::from("https://example.org"),
        published_at: at,
        summary: None,
        body: None,
    }
}

fn mail(from: &str, subject: &str) -> Message {
    Message {
        sender_address: from.to_string(),
        sender_name: None,
        date: 10,
        body: String::from("body"),
        subject: subject.to_string(),
    }
}

fn config(redis_url: &str) -> Config {
    Config {
        database_url: String::new(),
        email_address: String::new(),
        email_password: String::new(),
        imap_server: String::new(),
        imap_port: 993,
        redis_url: redis_url.to_string(),
        rsshub_url: String::new(),
        teloxide_token: String::new(),
    }
}

#[test]
fn redis_client_accepts_redis_urls_only() {
    assert!(RedisClient::connect("redis://localhost/").is_ok());
    assert!(RedisClient::connect("definitely not a url").is_err());
    assert!(RedisRepository::connect(&config("redis://localhost/")).is_ok());
    assert!(RedisRepository::connect(&config("http//nowhere")).is_err());
}

#[test]
fn latest_message_is_last_from_sender() {
    let inbox = vec![mail("info@spaziogrigio.com", "one"), mail("other@x.org", "two"), mail("info@spaziogrigio.com", "three"), mail("other@x.org", "four")];
    assert_eq!(Newsletter::get_latest_message(&inbox, "info@spaziogrigio.com"), Some(2));
    assert_eq!(Newsletter::get_latest_message(&inbox, "nobody@x.org"), None);
    assert_eq!(Newsletter::get_latest_message(&vec![], "info@spaziogrigio.com"), None);
}

#[test]
fn newsletter_announces_the_latest_dated_mail() {
    let mut early = mail("info@spaziogrigio.com", "later dated, arrived first");
    early.date = 50;
    let mut late = mail("info@spaziogrigio.com", "earlier dated, arrived last");
    late.date = 20;
    let inbox = vec![early, mail("other@x.org", "noise"), late];
    let items = Newsletter::items_from(&inbox, "info@spaziogrigio.com");
    assert_eq!(items.len(), 2);
    assert_eq!(items[0].published_at, Some(50));
    assert_eq!(items[1].published_at, Some(20));
    let job = PollJob::new(Origin::Mailbox, SelectionPolicy::SingleLatest, String::from("k"));
    let n = job.plan(None, &items).unwrap();
    assert_eq!(n.index(), 0);
    assert_eq!(n.text(), "Ciao sono Irina.\nlater dated, arrived first\n\nbody");
    assert!(job.plan(Some(50), &items).is_none());
    assert!(Newsletter::items_from(&inbox, "nobody@x.org").is_empty());
}

#[test]
fn mail_becomes_mailbox_item() {
    let item = mail("info@spaziogrigio.com", "Oggetto").to_item();
    assert_eq!(item.origin, Origin::Mailbox);
    assert_eq!(item.title.as_deref(), Some("Oggetto"));
    assert_eq!(item.body.as_deref(), Some("body"));
    assert_eq!(item.published_at, Some(10));
}

#[test]
fn feeds_pick_latest_and_oldest_unseen() {
    let feed = vec![entry(Some(30)), entry(Some(10)), entry(Some(20))];
    assert_eq!(Youtube::get_latest_video(&feed), Some(0));
    assert_eq!(Youtube::get_latest_video(&vec![]), None);
    assert_eq!(RssHubClient::get_latest_post(&feed), Some(0));
    assert_eq!(Youtube::get_oldest_unseen_video(&feed, None), Some(1));
    assert_eq!(Youtube::get_oldest_unseen_video(&feed, Some(10)), Some(2));
    assert_eq!(RssHubClient::get_oldest_unseen_post(&feed, Some(30)), None);
}

#[test]
fn morning_routine_picks_a_listed_video() {
    let all: Vec<&str> = (0..11).map(MorningRoutine::video).collect();
    assert_eq!(all[0], "https://www.youtube.com/watch?v=rRQP8PNEouo");
    assert_eq!(all[10], "https://www.youtube.com/watch?v=55RyTo4U818");
    for _ in 0..20 {
        assert!(all.contains(&MorningRoutine::get_random()));
    }
    let text = MorningRoutine::good_morning();
    assert!(all.iter().any(|v| text == MorningRoutine::greeting(v)));
    assert_eq!(
        MorningRoutine::greeting("v"),
        "Buongiorno sono Irina. Segui la mia morning routine per cominciare la tua giornata \u{1F449} v"
    );
}
