//! Mails of the newsletter inbox: reading one from its raw bytes.

use vstd::prelude::*;

use crate::item::{Item, Origin};

verus! {

/// Why a mail could not be read.
#[derive(Debug)]
pub enum EmailError {
    ParseError(String),
}

/// A mail date as written in its header: year, month, day, hour, minute,
/// second, then whether the zone lies before (west of) GMT, and the zone's
/// hours and minutes.
pub type MailDate = (u16, u8, u8, u8, u8, u8, bool, u8, u8);

/// The headers and text of a parsed mail: the first sender's address and
/// name, the subject, the date, and the first text body.
#[derive(Debug)]
pub struct MailFields {
    pub from_address: Option<String>,
    pub from_name: Option<String>,
    pub subject: Option<String>,
    pub date: Option<MailDate>,
    pub text_body: Option<String>,
}

/// An optional text seen as an optional sequence of characters.
pub open spec fn opt_text(o: Option<String>) -> Option<Seq<char>> {
    match o {
        Some(s) => Some(s@),
        None => None,
    }
}

/// The fields of a parsed mail as plain values.
pub open spec fn fields_view(f: MailFields) -> (
    Option<Seq<char>>,
    Option<Seq<char>>,
    Option<Seq<char>>,
    Option<MailDate>,
    Option<Seq<char>>,
) {
    (opt_text(f.from_address), opt_text(f.from_name), opt_text(f.subject), f.date, opt_text(f.text_body))
}

/// What mail_parser reads from the raw bytes of a mail; `None` where they do
/// not parse as a mail.
pub uninterp spec fn parsed_mail(raw: Seq<u8>) -> Option<
    (Option<Seq<char>>, Option<Seq<char>>, Option<Seq<char>>, Option<MailDate>, Option<Seq<char>>),
>;

/// Whether `y` is a leap year of the proleptic Gregorian calendar.
pub open spec fn is_leap(y: int) -> bool {
    y % 4 == 0 && (y % 100 != 0 || y % 400 == 0)
}

/// Number of days of month `m` of year `y`.
pub open spec fn days_in_month(y: int, m: int) -> int {
    if m == 2 {
        if is_leap(y) { 29 } else { 28 }
    } else if m == 4 || m == 6 || m == 9 || m == 11 {
        30
    } else {
        31
    }
}

/// Days from 1970-01-01 to the date `y`-`m`-`d` of the proleptic Gregorian
/// calendar (counting eras of 400 years from a year starting in March).
pub open spec fn days_from_civil(y: int, m: int, d: int) -> int {
    let yy = if m <= 2 { y - 1 } else { y };
    let era = yy / 400;
    let yoe = yy - era * 400;
    let doy = (153 * ((m + 9) % 12) + 2) / 5 + d - 1;
    let doe = yoe * 365 + yoe / 4 - yoe / 100 + doy;
    era * 146097 + doe - 719468
}

/// The instant of a UTC calendar date and time in nanoseconds since the
/// Unix epoch; `None` where it is no valid date and time (month, day of the
/// month, hour below 24, minute and second below 60) or lies outside an
/// `i64` count of nanoseconds.
pub open spec fn utc_instant(d: (u16, u8, u8, u8, u8, u8)) -> Option<i64> {
    let (y, mo, day, h, mi, sec) = (d.0 as int, d.1 as int, d.2 as int, d.3 as int, d.4 as int, d.5 as int);
    if 1 <= mo <= 12 && 1 <= day <= days_in_month(y, mo) && h < 24 && mi < 60 && sec < 60 {
        let n = (days_from_civil(y, mo, day) * 86400 + h * 3600 + mi * 60 + sec) * 1_000_000_000;
        if i64::MIN <= n <= i64::MAX { Some(n as i64) } else { None }
    } else {
        None
    }
}

/// Relies on mail_parser's `MessageParser::parse` and on the header getters
/// of the parsed message (`from` and its first address, `subject`, `date`,
/// `body_text(0)`), whose values are copied out.
#[verifier::external_body]
fn parse_mail(raw: &[u8]) -> (r: Option<MailFields>)
    ensures
        r is None <==> parsed_mail(raw@) is None,
        r matches Some(f) ==> parsed_mail(raw@) == Some(fields_view(f)),
{
    let m = mail_parser::MessageParser::default().parse(raw)?;
    let from = m.from().and_then(|a| a.first());
    Some(MailFields {
        from_address: from.and_then(|a| a.address()).map(String::from),
        from_name: from.and_then(|a| a.name()).map(String::from),
        subject: m.subject().map(String::from),
        date: m.date().map(|d| {
            (d.year, d.month, d.day, d.hour, d.minute, d.second, d.tz_before_gmt, d.tz_hour, d.tz_minute)
        }),
        text_body: m.body_text(0).map(|b| b.to_string()),
    })
}

/// Relies on chrono's `NaiveDate::from_ymd_opt`, `NaiveDate::and_hms_opt`,
/// `NaiveDateTime::and_utc` and `DateTime::timestamp_nanos_opt` to place a
/// UTC date and time.
#[verifier::external_body]
fn utc_nanos(d: (u16, u8, u8, u8, u8, u8)) -> (r: Option<i64>)
    ensures
        r == utc_instant(d),
{
    chrono::NaiveDate::from_ymd_opt(d.0 as i32, d.1 as u32, d.2 as u32)
        .and_then(|x| x.and_hms_opt(d.3 as u32, d.4 as u32, d.5 as u32))
        .and_then(|x| x.and_utc().timestamp_nanos_opt())
}

/// The zone offset of a mail date in nanoseconds, added to the local time to
/// obtain UTC (a zone before GMT is behind it).
pub open spec fn zone_offset(d: MailDate) -> int {
    let n = (d.7 as int * 3600 + d.8 as int * 60) * 1_000_000_000;
    if d.6 { n } else { -n }
}

/// The UTC instant of a mail date in nanoseconds since the Unix epoch;
/// `None` where the date is invalid or out of range.
pub open spec fn mail_instant(d: MailDate) -> Option<i64> {
    match utc_instant((d.0, d.1, d.2, d.3, d.4, d.5)) {
        Some(local) => {
            let v = local as int + zone_offset(d);
            if i64::MIN <= v <= i64::MAX { Some(v as i64) } else { None }
        },
        None => None,
    }
}

/// The UTC instant of a mail date (see `mail_instant`).
pub fn mail_date_nanos(d: MailDate) -> (r: Option<i64>)
    ensures
        r == mail_instant(d),
{
    let local = match utc_nanos((d.0, d.1, d.2, d.3, d.4, d.5)) {
        Some(n) => n,
        None => {
            return None;
        },
    };
    let off: i64 = (d.7 as i64 * 3600 + d.8 as i64 * 60) * 1_000_000_000;
    if d.6 {
        if local <= i64::MAX - off { Some(local + off) } else { None }
    } else {
        if local >= i64::MIN + off { Some(local - off) } else { None }
    }
}

/// The error a mail is rejected with, if any.
pub open spec fn rejection(f: (
    Option<Seq<char>>,
    Option<Seq<char>>,
    Option<Seq<char>>,
    Option<MailDate>,
    Option<Seq<char>>,
)) -> Option<Seq<char>> {
    if f.0 is None {
        Some("FROM is empty"@)
    } else if f.3 matches Some(d) && mail_instant(d) is None {
        Some("invalid date"@)
    } else {
        None
    }
}

/// The message read from parsed fields, received at `now` (used where the
/// mail has no date).
pub open spec fn read_as(f: (
    Option<Seq<char>>,
    Option<Seq<char>>,
    Option<Seq<char>>,
    Option<MailDate>,
    Option<Seq<char>>,
), now: i64, m: Message) -> bool {
    &&& f.0 == Some(m.sender_address@)
    &&& f.1 == opt_text(m.sender_name)
    &&& m.subject@ == (match f.2 { Some(s) => s, None => Seq::<char>::empty() })
    &&& m.body@ == (match f.4 { Some(s) => s, None => Seq::<char>::empty() })
    &&& m.date == (match f.3 { Some(d) => mail_instant(d).unwrap(), None => now })
}

/// A mail of the newsletter inbox. `date` is in nanoseconds since the Unix
/// epoch (UTC).
#[derive(Debug)]
pub struct Message {
    pub sender_address: String,
    pub sender_name: Option<String>,
    pub date: i64,
    pub body: String,
    pub subject: String,
}

/// Position of the last mail sent from `from`.
pub open spec fn last_from(msgs: Seq<Message>, from: Seq<char>) -> Option<int>
    decreases msgs.len(),
{
    if msgs.len() == 0 {
        None
    } else if msgs.last().sender_address@ == from {
        Some(msgs.len() - 1)
    } else {
        last_from(msgs.drop_last(), from)
    }
}


/// The mails sent from `from`, in order.
pub open spec fn from_sender(msgs: Seq<Message>, from: Seq<char>) -> Seq<Message>
    decreases msgs.len(),
{
    if msgs.len() == 0 {
        Seq::empty()
    } else {
        let rest = from_sender(msgs.drop_last(), from);
        if msgs.last().sender_address@ == from {
            rest.push(msgs.last())
        } else {
            rest
        }
    }
}

/// `it` is the item announcing mail `m`: its subject as title, its text as
/// body, its date as publication instant.
pub open spec fn mail_item(m: Message, it: Item) -> bool {
    &&& it.origin == Origin::Mailbox
    &&& it.title matches Some(t) && t@ == m.subject@
    &&& it.body matches Some(b) && b@ == m.body@
    &&& it.published_at == Some(m.date)
    &&& it.url@ == Seq::<char>::empty()
    &&& it.summary is None
}

impl Message {
    /// The item announcing this mail.
    pub fn to_item(&self) -> (r: Item)
        ensures
            mail_item(*self, r),
    {
        Item {
            origin: Origin::Mailbox,
            title: Some(self.subject.clone()),
            url: String::new(),
            published_at: Some(self.date),
            summary: None,
            body: Some(self.body.clone()),
        }
    }

    /// Builds the message from the fields of a parsed mail received at
    /// `now`: a mail without a sender address, or with a date that is not a
    /// valid date and time, is rejected.
    pub fn from_fields(f: MailFields, now: i64) -> (r: Result<Message, EmailError>)
        ensures
            rejection(fields_view(f)) matches Some(e) ==> (r matches Err(EmailError::ParseError(m)) && m@ == e),
            rejection(fields_view(f)) is None ==> (r matches Ok(m) && read_as(fields_view(f), now, m)),
    {
        let ghost v = fields_view(f);
        let sender_address = match f.from_address {
            Some(a) => a,
            None => {
                return Err(EmailError::ParseError(String::from_str("FROM is empty")));
            },
        };
        let date = match f.date {
            Some(d) => match mail_date_nanos(d) {
                Some(n) => n,
                None => {
                    return Err(EmailError::ParseError(String::from_str("invalid date")));
                },
            },
            None => now,
        };
        let subject = match f.subject {
            Some(s) => s,
            None => String::new(),
        };
        let body = match f.text_body {
            Some(b) => b,
            None => String::new(),
        };
        let m = Message { sender_address, sender_name: f.from_name, date, body, subject };
        assert(read_as(v, now, m));
        Ok(m)
    }

    /// Reads a mail from its raw bytes, received at `now`.
    pub fn try_from(raw: &[u8], now: i64) -> (r: Result<Message, EmailError>)
        ensures
            parsed_mail(raw@) is None ==> (r matches Err(EmailError::ParseError(m)) && m@ == "failed to parse message"@),
            parsed_mail(raw@) matches Some(v) ==> (rejection(v) matches Some(e) ==> (r matches Err(
                EmailError::ParseError(m),
            ) && m@ == e)),
            parsed_mail(raw@) matches Some(v) ==> (rejection(v) is None ==> (r matches Ok(m) && read_as(v, now, m))),
    {
        match parse_mail(raw) {
            Some(f) => Self::from_fields(f, now),
            None => Err(EmailError::ParseError(String::from_str("failed to parse message"))),
        }
    }
}

} // verus!
