use spazio_grigio_bot::mail::{mail_date_nanos, EmailError, MailDate, MailFields, Message};

const JAN_1: i64 = 1_704_067_200_000_000_000;
const HOUR: i64 = 3_600_000_000_000;

fn fields(from: Option<&str>, date: Option<MailDate>) -> MailFields {
    MailFields {
        from_address: from.map(String::from),
        from_name: Some(String::from("Spazio Grigio")),
        subject: None,
        date,
        text_body: Some(String::from("Testo")),
    }
}

fn parse_error(r: Result<Message, EmailError>) -> String {
    match r {
        Err(EmailError::ParseError(m)) => m,
        Ok(_) => panic!("expected a parse error"),
    }
}

#[test]
fn reads_a_raw_mail() {
    let raw = b"From: Spazio Grigio <info@spaziogrigio.com>\r\nSubject: Novita\r\nDate: Mon, 1 Jan 2024 10:00:00 +0000\r\nContent-Type: text/plain\r\n\r\nCiao a tutti\r\n";
    let m = Message::try_from(raw, 0).unwrap();
    assert_eq!(m.sender_address, "info@spaziogrigio.com");
    assert_eq!(m.sender_name.as_deref(), Some("Spazio Grigio"));
    assert_eq!(m.subject, "Novita");
    assert_eq!(m.date, JAN_1 + 10 * HOUR);
    assert!(m.body.starts_with("Ciao a tutti"));
}

#[test]
fn rejects_a_mail_without_sender() {
    let raw = b"Subject: Novita\r\nDate: Mon, 1 Jan 2024 10:00:00 +0000\r\n\r\nCiao\r\n";
    assert_eq!(parse_error(Message::try_from(raw, 0)), "FROM is empty");
    assert_eq!(parse_error(Message::from_fields(fields(None, None), 0)), "FROM is empty");
}

#[test]
fn rejects_an_unparsable_mail() {
    assert_eq!(parse_error(Message::try_from(b"", 0)), "failed to parse message");
}

#[test]
fn mail_date_read_as_utc_or_receipt_time() {
    let m = Message::from_fields(fields(Some("a@b.c"), Some((2024, 1, 1, 10, 0, 0, false, 0, 0))), 7).unwrap();
    assert_eq!(m.date, JAN_1 + 10 * HOUR);
    assert_eq!(m.subject, "");
    assert_eq!(m.body, "Testo");
    let undated = Message::from_fields(fields(Some("a@b.c"), None), 7).unwrap();
    assert_eq!(undated.date, 7);
    assert_eq!(parse_error(Message::from_fields(fields(Some("a@b.c"), Some((2024, 2, 30, 0, 0, 0, false, 0, 0))), 7)), "invalid date");
}

#[test]
fn mail_date_applies_zone_offset() {
    let raw = b"From: a@b.c\r\nSubject: s\r\nDate: Mon, 1 Jan 2024 10:00:00 +0200\r\n\r\nx\r\n";
    assert_eq!(Message::try_from(raw, 0).unwrap().date, JAN_1 + 8 * HOUR);
    assert_eq!(mail_date_nanos((2024, 1, 1, 10, 0, 0, false, 2, 0)), Some(JAN_1 + 8 * HOUR));
    assert_eq!(mail_date_nanos((2024, 1, 1, 10, 0, 0, true, 5, 30)), Some(JAN_1 + 15 * HOUR + HOUR / 2));
    assert_eq!(mail_date_nanos((2024, 13, 1, 0, 0, 0, false, 0, 0)), None);
}

#[test]
fn calendar_edge_cases() {
    let utc = |y, mo, d, h| mail_date_nanos((y, mo, d, h, 0, 0, false, 0, 0));
    assert_eq!(utc(1970, 1, 1, 0), Some(0));
    assert_eq!(utc(2000, 3, 1, 0), Some(951_868_800_000_000_000));
    assert_eq!(utc(2024, 2, 29, 0), Some(JAN_1 + 59 * 24 * HOUR));
    assert_eq!(utc(2023, 2, 29, 0), None);
    assert_eq!(utc(1900, 2, 29, 0), None);
    assert_eq!(utc(2024, 4, 31, 0), None);
    assert_eq!(utc(2024, 1, 1, 24), None);
    assert_eq!(utc(2300, 1, 1, 0), None);
}
