//! Feeds as `feed-rs` reads them, reduced to the values the reader keeps,
//! and their mapping onto stored feeds and articles.
use vstd::prelude::*;

use crate::feed_parse::{EntryInfo, FeedInfo};
use crate::model::{article_id, opt_view, Article, Feed, FeedTypeMark};
use crate::text::{join, join_seq, views};
use crate::time::Timestamp;

verus! {

/// `s`, or the empty string if absent.
pub open spec fn or_empty(o: Option<Seq<char>>) -> Seq<char> {
    match o {
        Some(s) => s,
        None => Seq::empty(),
    }
}

/// The first item of `s`, or the empty string.
pub open spec fn first_or_empty(s: Seq<Seq<char>>) -> Seq<char> {
    if s.len() > 0 {
        s[0]
    } else {
        Seq::empty()
    }
}

/// The body of an entry's content, or the empty string.
pub open spec fn content_body(c: Option<Option<Seq<char>>>) -> Seq<char> {
    match c {
        Some(Some(b)) => b,
        _ => Seq::empty(),
    }
}

/// The view of an entry's optional content body.
pub open spec fn content_view(c: &Option<Option<String>>) -> Option<Option<Seq<char>>> {
    match c {
        Some(b) => Some(opt_view(b)),
        None => None,
    }
}

/// When an entry was published, shown at offset zero; the epoch if unknown.
pub open spec fn published_or_epoch(p: Option<Timestamp>) -> Timestamp {
    match p {
        Some(t) => t.spec_in_utc(),
        None => Timestamp::spec_epoch(),
    }
}

/// `o`'s string, or the empty string.
pub fn string_or_empty(o: &Option<String>) -> (r: String)
    ensures
        r@ == or_empty(opt_view(o)),
{
    match o {
        Some(s) => s.clone(),
        None => String::new(),
    }
}

/// The first of `v`, or the empty string.
pub fn first_string_or_empty(v: &Vec<String>) -> (r: String)
    ensures
        r@ == first_or_empty(views(v@)),
{
    if v.len() > 0 {
        v[0].clone()
    } else {
        String::new()
    }
}

/// `a` is the article that `entry` of `feed` becomes when fetched at `now`:
/// the entry's title, first link, summary, content body and authors (joined
/// by `"; "`), publication time or else the epoch, unread and unstarred,
/// without cached content, its identity following from the entry id, the
/// feed address and the title.
pub open spec fn is_entry_article(a: Article, entry: EntryInfo, feed: Feed, now: Timestamp) -> bool {
    &&& a.spec_id() == article_id(Some(entry.id@), feed.feed_url@, or_empty(opt_view(&entry.title)))
    &&& opt_view(&a.pub_id) == Some(entry.id@)
    &&& a.title@ == or_empty(opt_view(&entry.title))
    &&& a.link@ == first_or_empty(views(entry.links@))
    &&& a.feed_id@ == feed.id@
    &&& a.feed_title@ == feed.title@
    &&& a.description@ == or_empty(opt_view(&entry.summary))
    &&& a.author@ == join_seq(views(entry.authors@), seq![';', ' '])
    &&& a.pub_time == published_or_epoch(entry.published)
    &&& a.content@ == content_body(content_view(&entry.content))
    &&& a.cached_content is None
    &&& a.create_time == now
    &&& a.update_time == now
    &&& !a.is_read
    &&& !a.is_starred
}

/// The article an entry of `feed` becomes, fetched at `now`: the entry's
/// title, first link, summary, content body and authors (joined by `"; "`),
/// publication time or else the epoch, unread and unstarred, without cached
/// content. Its identity follows from the entry id, the feed address and the
/// title.
pub fn map_entry_to_article(entry: &EntryInfo, feed: &Feed, now: Timestamp) -> (r: Article)
    ensures
        r.spec_id() == article_id(Some(entry.id@), feed.feed_url@, or_empty(opt_view(&entry.title))),
        opt_view(&r.pub_id) == Some(entry.id@),
        r.title@ == or_empty(opt_view(&entry.title)),
        r.link@ == first_or_empty(views(entry.links@)),
        r.feed_id@ == feed.id@,
        r.feed_title@ == feed.title@,
        r.description@ == or_empty(opt_view(&entry.summary)),
        r.author@ == join_seq(views(entry.authors@), seq![';', ' ']),
        r.pub_time == published_or_epoch(entry.published),
        r.content@ == content_body(content_view(&entry.content)),
        r.cached_content is None,
        r.create_time == now,
        r.update_time == now,
        !r.is_read,
        !r.is_starred,
        is_entry_article(r, *entry, *feed, now),
{
    let title = string_or_empty(&entry.title);
    let link = first_string_or_empty(&entry.links);
    let description = string_or_empty(&entry.summary);
    let content = match &entry.content {
        Some(c) => string_or_empty(c),
        None => String::new(),
    };
    let pub_date = match &entry.published {
        Some(t) => t.in_utc(),
        None => Timestamp::epoch(),
    };
    let mut sep = String::new();
    crate::text::push_char(&mut sep, ';');
    crate::text::push_char(&mut sep, ' ');
    assert(sep@ =~= seq![';', ' ']);
    let author = join(&entry.authors, sep.as_str());
    Article::new(
        Some(entry.id.clone()),
        title,
        link,
        feed.id.clone(),
        feed.title.clone(),
        description,
        author,
        pub_date,
        content,
        None,
        now,
        now,
        false,
        false,
        feed.feed_url.as_str(),
    )
}

/// The stored feed a fetched feed document becomes: identity `id`, no
/// parent (the given parent is not used), the document's title, first link,
/// description and logo, the address it was fetched from, times at the
/// epoch, position `sort`, and a daily fetch.
pub fn map_feed_to_feed(
    id: &str,
    parent_id: Option<String>,
    sort: &i32,
    url: &str,
    res: &FeedInfo,
) -> (r: Feed)
    ensures
        r.id@ == id@,
        r.parent_id is None,
        r.title@ == or_empty(opt_view(&res.title)),
        r.link@ == first_or_empty(views(res.links@)),
        r.item_type == FeedTypeMark::Feed,
        r.logo@ == or_empty(opt_view(&res.logo)),
        r.feed_url@ == url@,
        r.description@ == or_empty(opt_view(&res.description)),
        r.create_time == Timestamp::spec_epoch(),
        r.update_time == Timestamp::spec_epoch(),
        r.sort == *sort,
        r.sync_interval_sec == 86400,
{
    let title = string_or_empty(&res.title);
    let link = first_string_or_empty(&res.links);
    let description = string_or_empty(&res.description);
    let logo = string_or_empty(&res.logo);
    Feed {
        id: crate::text::owned(id),
        parent_id: None,
        title,
        link,
        item_type: FeedTypeMark::Feed,
        logo,
        feed_url: crate::text::owned(url),
        description,
        create_time: Timestamp::epoch(),
        update_time: Timestamp::epoch(),
        sort: *sort,
        sync_interval_sec: 86400,
    }
}

/// The articles the entries of `res` become for `feed`, in entry order.
pub fn map_entries_to_articles(res: &FeedInfo, feed: &Feed, now: Timestamp) -> (r: Vec<Article>)
    ensures
        r.len() == res.entries.len(),
        forall|i: int|
            0 <= i < r.len() ==> is_entry_article(#[trigger] r@[i], res.entries@[i], *feed, now),
{
    let mut r: Vec<Article> = Vec::new();
    let mut i: usize = 0;
    while i < res.entries.len()
        invariant
            0 <= i <= res.entries.len(),
            r.len() == i,
            forall|k: int|
                0 <= k < i ==> is_entry_article(#[trigger] r@[k], res.entries@[k], *feed, now),
        decreases res.entries.len() - i,
    {
        let a = map_entry_to_article(&res.entries[i], feed, now);
        r.push(a);
        i = i + 1;
    }
    r
}

} // verus!
