//! Items discovered by a poll, and the origin that produced them.

use vstd::prelude::*;

verus! {

/// The kind of source an item was fetched from.
#[derive(Clone, Copy, Debug, PartialEq, Eq, Structural)]
pub enum Origin {
    /// A mailbox, filtered by sender.
    Mailbox,
    /// A video feed.
    VideoFeed,
    /// A social-media feed.
    SocialFeed,
}

/// One unit of content fetched from a source.
///
/// `published_at` is an instant in nanoseconds since the Unix epoch (UTC);
/// items without it cannot be deduplicated by time and count as unseen.
#[derive(Clone, Debug)]
pub struct Item {
    pub origin: Origin,
    pub title: Option<String>,
    pub url: String,
    pub published_at: Option<i64>,
    pub summary: Option<String>,
    pub body: Option<String>,
}

/// The publication instants of a sequence of items, in the same order.
pub open spec fn dates_of(items: Seq<Item>) -> Seq<Option<i64>> {
    items.map_values(|it: Item| it.published_at)
}

} // verus!
