//! Requests and replies of the reader's HTTP interface.
use vstd::prelude::*;

verus! {

/// Sets an article's read mark.
pub struct MarkReadReq {
    pub is_read: bool,
}

/// Sets an article's star.
pub struct MarkStartReq {
    pub is_starred: bool,
}

/// An address to fetch on the client's behalf.
pub struct ForwardUrlReq {
    pub url: String,
}

/// Which articles to list, and which page of them.
pub struct ArticleFilterReq {
    pub feed_id: Option<String>,
    pub is_today: Option<bool>,
    pub is_starred: Option<bool>,
    pub is_read: Option<bool>,
    pub keyword: Option<String>,
    pub cursor: Option<i32>,
    pub limit: Option<i32>,
}

/// A new place for an entry of the subscription tree.
pub struct FeedSortReq {
    pub item_type: String,
    pub uuid: String,
    pub folder_uuid: String,
    pub sort: i32,
}

/// Which articles to count per feed: 0 starred, 1 unread, otherwise all.
pub struct FeedsCountReq {
    pub filter: i64,
}

/// A new fetch interval for a feed.
pub struct FeedsUpdateSyncIntervalReq {
    pub interval: u32,
    pub id: String,
}

/// The place of an entry of the subscription tree.
pub struct FeedSortRsp {
    pub parent_id: String,
    pub child_uuid: String,
    pub sort: i32,
}

/// Subscribes to the feed at `url`.
pub struct FeedAddReq {
    pub url: String,
}

/// Previews the feed at `url`.
pub struct FeedFetchReq {
    pub url: String,
}

/// Creates a folder.
pub struct FolderAddReq {
    pub name: String,
}

/// Moves a feed into a folder.
pub struct FeedMoveReq {
    pub channel_uuid: String,
    pub folder_uuid: String,
    pub sort: i32,
}

/// Renames a folder.
pub struct FolderRenameReq {
    pub name: String,
    pub uuid: String,
}

/// Article totals: unread overall, and read today.
pub struct CollectionMeta {
    pub total: i64,
    pub today: i64,
}

/// A search over titles and descriptions, with paging.
pub struct SearchReq {
    pub query: String,
    pub limit: Option<i32>,
    pub cursor: Option<i32>,
}

/// Marks articles read: all of them, or those under one entry of the tree.
pub struct MarkAllReadReq {
    pub uuid: Option<String>,
    pub is_today: Option<bool>,
    pub is_all: Option<bool>,
}

/// The outcome of fetching one feed.
pub struct FeedSyncResult {
    pub feed_id: String,
    pub title: String,
    pub count: u64,
    pub err_info: String,
}

} // verus!
