//! A parsed feed document, reduced to the values the reader keeps. The
//! server reads documents with `feed-rs` and hands the library these
//! values.
use vstd::prelude::*;

use crate::time::Timestamp;

verus! {

/// What the reader takes from one entry of a feed.
pub struct EntryInfo {
    pub id: String,
    /// The entry's title text, if it has a title.
    pub title: Option<String>,
    /// The addresses of the entry's links, in order.
    pub links: Vec<String>,
    /// The entry's summary text, if it has a summary.
    pub summary: Option<String>,
    /// `Some(body)` if the entry has content, where the body may be absent.
    pub content: Option<Option<String>>,
    /// When the entry was first published (UTC).
    pub published: Option<Timestamp>,
    /// The names of the entry's authors, in order.
    pub authors: Vec<String>,
}

/// What the reader takes from a feed document.
pub struct FeedInfo {
    pub title: Option<String>,
    /// The addresses of the feed's links, in order.
    pub links: Vec<String>,
    pub description: Option<String>,
    /// The address of the feed's logo, if it has one.
    pub logo: Option<String>,
    /// When the feed was last updated (UTC).
    pub updated: Option<Timestamp>,
    pub entries: Vec<EntryInfo>,
}

} // verus!
