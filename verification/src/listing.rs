//! What the subscription list and the article list show.
use vstd::prelude::*;

use crate::dto::ArticleFilterReq;
use crate::model::{copy_opt, opt_view, Feed, FeedTypeMark};
use crate::time::Timestamp;

verus! {

/// One entry of the subscription list as the client receives it.
pub struct SubscribeItem {
    pub uuid: String,
    pub title: String,
    pub link: String,
    pub feed_url: String,
    pub logo: String,
    pub description: String,
    pub pub_date: Timestamp,
    pub health_status: i32,
    pub failure_reason: String,
    pub sort: i32,
    pub sync_interval_sec: i32,
    pub last_sync_date: String,
    pub create_time: Timestamp,
    pub update_time: Timestamp,
    pub parent_id: Option<String>,
    /// The entry's own id when it is a folder.
    pub folder_uuid: Option<String>,
    /// The entry's title when it is a folder.
    pub folder_name: Option<String>,
    pub item_type: FeedTypeMark,
    pub is_expanded: bool,
}

/// The list entry for `e`: its fields, reported healthy and collapsed, with
/// its creation time as publication date, and folder id and name set exactly
/// for folders.
pub fn subscribe_item(e: &Feed) -> (r: SubscribeItem)
    ensures
        r.uuid@ == e.id@,
        r.title@ == e.title@,
        r.link@ == e.link@,
        r.feed_url@ == e.feed_url@,
        r.logo@ == e.logo@,
        r.description@ == e.description@,
        r.pub_date == e.create_time,
        r.health_status == 1,
        r.failure_reason@ == Seq::<char>::empty(),
        r.sort == e.sort,
        r.sync_interval_sec == e.sync_interval_sec,
        r.last_sync_date@ == "1999-12-31"@,
        r.create_time == e.create_time,
        r.update_time == e.update_time,
        opt_view(&r.parent_id) == opt_view(&e.parent_id),
        opt_view(&r.folder_uuid) == if e.item_type == FeedTypeMark::Folder {
            Some(e.id@)
        } else {
            None
        },
        opt_view(&r.folder_name) == if e.item_type == FeedTypeMark::Folder {
            Some(e.title@)
        } else {
            None
        },
        r.item_type == e.item_type,
        !r.is_expanded,
{
    let is_folder = e.item_type == FeedTypeMark::Folder;
    SubscribeItem {
        uuid: e.id.clone(),
        title: e.title.clone(),
        link: e.link.clone(),
        feed_url: e.feed_url.clone(),
        logo: e.logo.clone(),
        description: e.description.clone(),
        pub_date: e.create_time,
        health_status: 1,
        failure_reason: String::new(),
        sort: e.sort,
        sync_interval_sec: e.sync_interval_sec,
        last_sync_date: crate::text::owned("1999-12-31"),
        create_time: e.create_time,
        update_time: e.update_time,
        parent_id: copy_opt(&e.parent_id),
        folder_uuid: if is_folder {
            Some(e.id.clone())
        } else {
            None
        },
        folder_name: if is_folder {
            Some(e.title.clone())
        } else {
            None
        },
        item_type: e.item_type,
        is_expanded: false,
    }
}

/// The filter an article listing runs with: the request's, without a
/// keyword.
pub fn listing_filter(q: &ArticleFilterReq) -> (r: ArticleFilterReq)
    ensures
        opt_view(&r.feed_id) == opt_view(&q.feed_id),
        r.is_today == q.is_today,
        r.is_starred == q.is_starred,
        r.is_read == q.is_read,
        r.keyword is None,
        r.cursor == q.cursor,
        r.limit == q.limit,
{
    ArticleFilterReq {
        feed_id: copy_opt(&q.feed_id),
        is_today: q.is_today,
        is_starred: q.is_starred,
        is_read: q.is_read,
        keyword: None,
        cursor: q.cursor,
        limit: q.limit,
    }
}

} // verus!
