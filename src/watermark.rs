//! Watermarks: the last processed instant of each source, as stored and as
//! advanced by a run.

use vstd::prelude::*;

use crate::timestamp::{format_timestamp, parse_timestamp, rfc3339_instant, rfc3339_text};

verus! {

/// Store key of the mailbox watermark.
pub const LAST_NEWSLETTER_UPDATE: &'static str = "spaziogrigio-bot:last_newsletter_update";

/// Store key of the video-feed watermark.
pub const LAST_VIDEO_PUBDATE: &'static str = "spaziogrigio-bot:last_video_pubdate";

/// Store key of the social-feed watermark, held as RFC 3339 text like the
/// others (the earlier key held whole seconds).
pub const LAST_INSTAGRAM_UPDATE: &'static str = "spaziogrigio-bot:last_instagram_update_v3";

/// The watermark after announcing an item published at `at`: its instant,
/// or the old watermark where the item has none.
pub open spec fn advanced(wm: Option<i64>, at: Option<i64>) -> Option<i64> {
    match at {
        Some(t) => Some(t),
        None => wm,
    }
}

/// The watermark that a stored value denotes; a value that is not RFC 3339
/// counts as never checked.
pub open spec fn decoded(raw: Option<Seq<char>>) -> Option<i64> {
    match raw {
        Some(text) => rfc3339_instant(text),
        None => None,
    }
}

/// The value to write after announcing an item published at `at`, if any.
pub fn advance(wm: Option<i64>, at: Option<i64>) -> (r: Option<i64>)
    ensures
        r == advanced(wm, at),
{
    match at {
        Some(t) => Some(t),
        None => wm,
    }
}

/// The stored text form of a watermark.
pub fn encode_watermark(wm: i64) -> (r: String)
    ensures
        r@ == rfc3339_text(wm),
        decoded(Some(r@)) == Some(wm),
{
    format_timestamp(wm)
}

/// Reads a stored value back as a watermark.
pub fn decode_watermark(raw: Option<String>) -> (r: Option<i64>)
    ensures
        r == decoded(
            match raw {
                Some(s) => Some(s@),
                None => None,
            },
        ),
{
    match raw {
        Some(s) => parse_timestamp(s.as_str()),
        None => None,
    }
}

} // verus!
