//! The decisions around fetching feeds: when a feed is due, what a fetch
//! records, how results are reported, and the entries a user creates.
use vstd::prelude::*;

use crate::dto::FeedSyncResult;
use crate::feed_parse::FeedInfo;
use crate::feeds::{first_or_empty, is_entry_article, map_entries_to_articles, map_feed_to_feed, or_empty};
use crate::model::{opt_view, Article, Feed, FeedLog, FeedTypeMark};
use crate::time::{Timestamp, MAX_UTC_SECS};
use crate::text::views;

verus! {

// ---------------------------------------------------------------------------
// When a feed is due
// ---------------------------------------------------------------------------
/// A feed's fetch interval in seconds: its own when positive, else a day.
pub open spec fn sync_interval(sync_interval_sec: i32) -> int {
    if sync_interval_sec > 0 {
        sync_interval_sec as int
    } else {
        86400
    }
}

/// The feed's fetch interval in seconds.
pub fn effective_sync_interval(sync_interval_sec: i32) -> (r: u64)
    ensures
        r == sync_interval(sync_interval_sec),
        r > 0,
        sync_interval_sec > 0 ==> r == sync_interval_sec as u64,
        sync_interval_sec <= 0 ==> r == 86400,
{
    if sync_interval_sec > 0 {
        sync_interval_sec as u64
    } else {
        86400
    }
}

/// When a feed whose last successful fetch was at `last` is next due.
pub open spec fn next_sync(last: Timestamp, sync_interval_sec: i32) -> Timestamp {
    last.spec_in_utc().spec_plus_secs(sync_interval(sync_interval_sec))
}

/// Whether the next due time after `last` is a representable instant.
pub open spec fn next_sync_in_range(last: Timestamp, sync_interval_sec: i32) -> bool {
    last.secs + sync_interval(sync_interval_sec) <= MAX_UTC_SECS
}

/// A feed is due when it never fetched successfully, or when its next due
/// time is before `now`.
pub open spec fn is_due(sync_interval_sec: i32, last_success: Option<Timestamp>, now: Timestamp) -> bool {
    match last_success {
        None => true,
        Some(l) => next_sync(l, sync_interval_sec).earlier(now),
    }
}

/// Whether computing the next due time of `feed` stays in range; where it
/// does not, there is no due time to compare.
pub fn sync_due_in_range(feed: &Feed, last_success: &Option<Timestamp>) -> (b: bool)
    requires
        last_success matches Some(l) ==> l.wf(),
    ensures
        b == match last_success {
            None => true,
            Some(l) => next_sync_in_range(*l, feed.sync_interval_sec),
        },
{
    match last_success {
        None => true,
        Some(l) => l.can_add_secs(effective_sync_interval(feed.sync_interval_sec)),
    }
}

/// Whether `feed` is to be fetched at `now`, given its last successful
/// fetch.
pub fn sync_due(feed: &Feed, last_success: &Option<Timestamp>, now: &Timestamp) -> (b: bool)
    requires
        last_success matches Some(l) ==> l.wf() && next_sync_in_range(*l, feed.sync_interval_sec),
    ensures
        b == is_due(feed.sync_interval_sec, *last_success, *now),
{
    match last_success {
        None => true,
        Some(l) => {
            let next = l.in_utc().plus_secs(effective_sync_interval(feed.sync_interval_sec));
            next.is_before(now)
        },
    }
}

/// A positive interval is in effect exactly as given, however long.
pub proof fn lemma_positive_interval_in_effect(sync_interval_sec: i32)
    requires
        sync_interval_sec > 0,
    ensures
        sync_interval(sync_interval_sec) == sync_interval_sec as int,
{
}

/// A feed with a positive interval of `s` seconds whose last successful
/// fetch was at `last` is not due at any time whose second is before
/// `last.secs + s`.
pub proof fn lemma_not_due_before_own_interval(s: i32, last: Timestamp, now: Timestamp)
    requires
        s > 0,
        last.wf(),
        last.secs + s <= MAX_UTC_SECS,
        now.secs < last.secs + s,
    ensures
        !is_due(s, Some(last), now),
{
}

/// A feed that is due stays due as time goes on.
pub proof fn lemma_due_stays_due(
    sync_interval_sec: i32,
    last_success: Option<Timestamp>,
    now1: Timestamp,
    now2: Timestamp,
)
    requires
        is_due(sync_interval_sec, last_success, now1),
        !now2.earlier(now1),
    ensures
        is_due(sync_interval_sec, last_success, now2),
{
}

/// A feed fetched successfully at `last` is not due at any `now` up to and
/// including `last` moved forward by its interval (the fraction of a leap
/// second left behind).
pub proof fn lemma_not_due_within_interval(sync_interval_sec: i32, last: Timestamp, now: Timestamp)
    requires
        last.wf(),
        next_sync_in_range(last, sync_interval_sec),
        now.secs < last.secs + sync_interval(sync_interval_sec) || (now.secs == last.secs
            + sync_interval(sync_interval_sec) && now.nanos <= last.nanos % 1_000_000_000),
    ensures
        !is_due(sync_interval_sec, Some(last), now),
{
}

// ---------------------------------------------------------------------------
// What a fetch records
// ---------------------------------------------------------------------------
/// `i` holds the latest publication time of `articles`, the last one of
/// several equally late (as `Iterator::max` picks).
pub open spec fn is_latest(articles: Seq<Article>, i: int) -> bool {
    &&& 0 <= i < articles.len()
    &&& forall|j: int|
        0 <= j < articles.len() ==> !(#[trigger] articles[i].pub_time).earlier(articles[j].pub_time)
    &&& forall|j: int|
        i < j < articles.len() ==> (#[trigger] articles[j].pub_time).earlier(articles[i].pub_time)
}

/// The latest publication time among `articles`, the last of several
/// equally late; `None` for no articles.
pub fn latest_pub_time(articles: &Vec<Article>) -> (r: Option<Timestamp>)
    ensures
        articles.len() == 0 <==> r is None,
        r matches Some(t) ==> exists|i: int| is_latest(articles@, i) && articles@[i].pub_time == t,
{
    if articles.len() == 0 {
        return None;
    }
    let mut best: usize = 0;
    let mut i: usize = 1;
    while i < articles.len()
        invariant
            1 <= i <= articles.len(),
            is_latest(articles@.take(i as int), best as int),
        decreases articles.len() - i,
    {
        let ghost old_prefix = articles@.take(i as int);
        let ghost prefix = articles@.take(i + 1);
        if !articles[i].pub_time.is_before(&articles[best].pub_time) {
            best = i;
        }
        proof {
            assert forall|j: int| 0 <= j < i implies old_prefix[j] == prefix[j] by {}
            let b = best as int;
            assert forall|j: int| 0 <= j < prefix.len() implies !(
            #[trigger] prefix[b].pub_time).earlier(prefix[j].pub_time) by {
                if j < i {
                    assert(old_prefix[j] == prefix[j]);
                }
            }
            assert forall|j: int| b < j < prefix.len() implies (
            #[trigger] prefix[j].pub_time).earlier(prefix[b].pub_time) by {
                if j < i {
                    assert(old_prefix[j] == prefix[j]);
                }
            }
        }
        i = i + 1;
    }
    assert(articles@.take(articles.len() as int) =~= articles@);
    Some(articles[best].pub_time)
}

/// The log of a successful fetch of `feed_id` at `now`: healthy, dated by the
/// feed's update time (in UTC) or else by its latest article.
pub fn sync_success_log(
    feed_id: &str,
    updated: &Option<Timestamp>,
    articles: &Vec<Article>,
    now: Timestamp,
) -> (r: FeedLog)
    ensures
        r.feed_id@ == feed_id@,
        updated matches Some(u) ==> r.last_pub_date == Some(u.spec_in_utc()),
        updated is None ==> (r.last_pub_date is None <==> articles.len() == 0),
        updated is None ==> (r.last_pub_date matches Some(t) ==> exists|i: int|
            is_latest(articles@, i) && articles@[i].pub_time == t),
        r.healthy,
        r.log@ == Seq::<char>::empty(),
        r.create_time == now,
        r.update_time == now,
{
    let mut log = FeedLog::default_at(now);
    log.feed_id = crate::text::owned(feed_id);
    match updated {
        Some(u) => {
            log.last_pub_date = Some(u.in_utc());
        },
        None => {
            log.last_pub_date = latest_pub_time(articles);
        },
    }
    log
}

/// The result reported for a successful fetch of `feed`: the document's
/// title, or the feed address when it has none, and the number of articles
/// stored.
pub fn sync_success_result(feed: &Feed, title: &Option<String>, count: u64) -> (r: FeedSyncResult)
    ensures
        r.feed_id@ == feed.id@,
        r.title@ == match opt_view(title) {
            Some(t) => t,
            None => feed.feed_url@,
        },
        r.count == count,
        r.err_info@ == Seq::<char>::empty(),
{
    let t = match title {
        Some(t) => t.clone(),
        None => feed.feed_url.clone(),
    };
    FeedSyncResult { feed_id: feed.id.clone(), title: t, count, err_info: String::new() }
}

/// The log and result of a failed fetch of `feed` at `now`: unhealthy, with
/// the error's text, no articles stored.
pub fn sync_failure(feed: &Feed, err: &str, now: Timestamp) -> (r: (FeedLog, FeedSyncResult))
    ensures
        r.0.feed_id@ == feed.id@,
        r.0.last_pub_date is None,
        !r.0.healthy,
        r.0.log@ == err@,
        r.0.create_time == now,
        r.0.update_time == now,
        r.1.feed_id@ == feed.id@,
        r.1.title@ == feed.title@,
        r.1.count == 0,
        r.1.err_info@ == err@,
{
    let mut log = FeedLog::default_at(now);
    log.feed_id = feed.id.clone();
    log.log = crate::text::owned(err);
    log.healthy = false;
    let res = FeedSyncResult {
        feed_id: feed.id.clone(),
        title: feed.title.clone(),
        count: 0,
        err_info: crate::text::owned(err),
    };
    (log, res)
}

// ---------------------------------------------------------------------------
// Reporting results per feed
// ---------------------------------------------------------------------------
/// The reported value of one result: title, count and error text.
pub open spec fn reported(r: FeedSyncResult) -> (Seq<char>, u64, Seq<char>) {
    (r.title@, r.count, r.err_info@)
}

/// `j` is the last result for feed `key`.
pub open spec fn is_last_result(results: Seq<FeedSyncResult>, key: Seq<char>, j: int) -> bool {
    &&& 0 <= j < results.len()
    &&& results[j].feed_id@ == key
    &&& forall|k: int| j < k < results.len() ==> #[trigger] results[k].feed_id@ != key
}

/// The entry `e` reports the last result for its feed.
pub open spec fn reports_last(results: Seq<FeedSyncResult>, e: (String, (String, u64, String))) -> bool {
    exists|j: int|
        #[trigger] is_last_result(results, e.0@, j) && reported(results[j]) == (
            e.1.0@,
            e.1.1,
            e.1.2@,
        )
}

/// Some entry of `r` is for feed `key`.
pub open spec fn has_entry(r: Seq<(String, (String, u64, String))>, key: Seq<char>) -> bool {
    exists|a: int| 0 <= a < r.len() && #[trigger] r[a].0@ == key
}

/// No feed has two entries.
pub open spec fn entries_unique(r: Seq<(String, (String, u64, String))>) -> bool {
    forall|a: int, b: int| 0 <= a < b < r.len() ==> #[trigger] r[a].0@ != #[trigger] r[b].0@
}

/// Results keyed by feed, a later result for a feed replacing an earlier
/// one: each entry is the last result for its feed, every feed has an
/// entry, and no feed has two.
pub fn sync_results_by_feed(results: &Vec<FeedSyncResult>) -> (r: Vec<(String, (String, u64, String))>)
    ensures
        entries_unique(r@),
        forall|a: int| 0 <= a < r.len() ==> reports_last(results@, #[trigger] r@[a]),
        forall|j: int| 0 <= j < results.len() ==> has_entry(r@, #[trigger] results@[j].feed_id@),
{
    let mut r: Vec<(String, (String, u64, String))> = Vec::new();
    let mut i: usize = results.len();
    while i > 0
        invariant
            0 <= i <= results.len(),
            entries_unique(r@),
            forall|a: int| 0 <= a < r.len() ==> reports_last(results@, #[trigger] r@[a]),
            forall|j: int| i <= j < results.len() ==> has_entry(r@, #[trigger] results@[j].feed_id@),
        decreases i,
    {
        i = i - 1;
        let key = results[i].feed_id.as_str();
        let mut seen = false;
        let mut a: usize = 0;
        while a < r.len()
            invariant
                0 <= a <= r.len(),
                seen ==> has_entry(r@, key@),
                !seen ==> forall|b: int| 0 <= b < a ==> r@[b].0@ != key@,
            decreases r.len() - a,
        {
            if crate::text::str_eq(r[a].0.as_str(), key) {
                seen = true;
            }
            a = a + 1;
        }
        if !seen {
            let ghost before = r@;
            let entry = (
                results[i].feed_id.clone(),
                (results[i].title.clone(), results[i].count, results[i].err_info.clone()),
            );
            r.push(entry);
            proof {
                let n = before.len() as int;
                assert forall|x: int| 0 <= x < n implies r@[x] == before[x] by {}
                assert forall|k: int| i < k < results.len() implies #[trigger] results@[k].feed_id@
                    != key@ by {
                    if results@[k].feed_id@ == key@ {
                        assert(has_entry(before, results@[k].feed_id@));
                    }
                }
                assert(is_last_result(results@, r@[n].0@, i as int));
                assert(reports_last(results@, r@[n]));
                assert forall|x: int| 0 <= x < r.len() implies reports_last(results@, #[trigger] r@[x]) by {
                    if x < n {
                        assert(r@[x] == before[x]);
                    }
                }
                assert forall|j: int| i <= j < results.len() implies has_entry(r@, #[trigger] results@[j].feed_id@) by {
                    if j == i {
                        assert(r@[n].0@ == results@[j].feed_id@);
                    } else {
                        assert(has_entry(before, results@[j].feed_id@));
                        let b = choose|b: int| 0 <= b < before.len() && #[trigger] before[b].0@ == results@[j].feed_id@;
                        assert(r@[b] == before[b]);
                    }
                }
            }
        }
    }
    r
}

// ---------------------------------------------------------------------------
// Entries the user creates
// ---------------------------------------------------------------------------
/// The address a folder is given: `folder-` and its name.
pub open spec fn folder_url(name: Seq<char>) -> Seq<char> {
    "folder-"@ + name
}

/// A new folder named `name` with identity `uuid`: at the top, first in
/// order, addressed `folder-<name>`, dated at the epoch, with a daily fetch.
pub fn new_folder(uuid: &str, name: &str) -> (r: Feed)
    ensures
        r.id@ == uuid@,
        r.parent_id is None,
        r.title@ == name@,
        r.link@ == folder_url(name@),
        r.item_type == FeedTypeMark::Folder,
        r.logo@ == Seq::<char>::empty(),
        r.feed_url@ == folder_url(name@),
        r.description@ == Seq::<char>::empty(),
        r.create_time == Timestamp::spec_epoch(),
        r.update_time == Timestamp::spec_epoch(),
        r.sort == 0,
        r.sync_interval_sec == 86400,
{
    let url = crate::text::concat2("folder-", name);
    Feed {
        id: crate::text::owned(uuid),
        parent_id: None,
        title: crate::text::owned(name),
        link: url.clone(),
        item_type: FeedTypeMark::Folder,
        logo: String::new(),
        feed_url: url,
        description: String::new(),
        create_time: Timestamp::epoch(),
        update_time: Timestamp::epoch(),
        sort: 0,
        sync_interval_sec: 86400,
    }
}

/// A new subscription with identity `uuid` to the feed fetched from `url`:
/// the stored feed, at the top and first in order, and its articles.
pub fn new_subscription(uuid: &str, url: &str, res: &FeedInfo, now: Timestamp) -> (r: (
    Feed,
    Vec<Article>,
))
    ensures
        r.0.id@ == uuid@,
        r.0.parent_id is None,
        r.0.title@ == or_empty(opt_view(&res.title)),
        r.0.link@ == first_or_empty(views(res.links@)),
        r.0.item_type == FeedTypeMark::Feed,
        r.0.logo@ == or_empty(opt_view(&res.logo)),
        r.0.feed_url@ == url@,
        r.0.description@ == or_empty(opt_view(&res.description)),
        r.0.create_time == Timestamp::spec_epoch(),
        r.0.update_time == Timestamp::spec_epoch(),
        r.0.sort == 0,
        r.0.sync_interval_sec == 86400,
        r.1.len() == res.entries.len(),
        forall|i: int|
            0 <= i < r.1.len() ==> is_entry_article(#[trigger] r.1@[i], res.entries@[i], r.0, now),
{
    let feed = map_feed_to_feed(uuid, None, &0, url, res);
    let articles = map_entries_to_articles(res, &feed, now);
    (feed, articles)
}

/// The cached copy of an article's page, when there is a non-empty one.
pub fn cached_content_to_serve(a: &Article) -> (r: Option<String>)
    ensures
        r matches Some(c) ==> opt_view(&a.cached_content) == Some(c@) && c@.len() > 0,
        r is None ==> match opt_view(&a.cached_content) {
            Some(c) => c.len() == 0,
            None => true,
        },
{
    match &a.cached_content {
        Some(c) => {
            if !c.as_str().is_empty() {
                Some(c.clone())
            } else {
                None
            }
        },
        None => None,
    }
}

} // verus!
