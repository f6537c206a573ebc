use rss_reader::counts::count_per_feed;
use rss_reader::dto::FeedSyncResult;
use rss_reader::feed_parse::{EntryInfo, FeedInfo};
use rss_reader::model::{Article, Feed, FeedTypeMark};
use rss_reader::sync::{
    cached_content_to_serve, effective_sync_interval, latest_pub_time, new_folder, new_subscription,
    sync_due, sync_due_in_range, sync_failure, sync_results_by_feed, sync_success_log,
    sync_success_result,
};
use rss_reader::time::{Timestamp, MAX_UTC_SECS};

fn ts(secs: i64) -> Timestamp {
    Timestamp { secs, nanos: 0, offset_secs: 0 }
}

fn feed(interval: i32) -> Feed {
    Feed {
        id: "f1".to_string(),
        parent_id: None,
        title: "Stored title".to_string(),
        link: String::new(),
        item_type: FeedTypeMark::Feed,
        logo: String::new(),
        feed_url: "http://f/rss".to_string(),
        description: String::new(),
        create_time: ts(0),
        update_time: ts(0),
        sort: 0,
        sync_interval_sec: interval,
    }
}

#[test]
fn interval_defaults_to_a_day() {
    assert_eq!(effective_sync_interval(60), 60);
    assert_eq!(effective_sync_interval(0), 86400);
    assert_eq!(effective_sync_interval(-5), 86400);
}

#[test]
fn never_fetched_feeds_are_due() {
    assert!(sync_due(&feed(60), &None, &ts(0)));
}

#[test]
fn feeds_are_due_once_their_interval_has_passed() {
    let last = Some(Timestamp { secs: 1000, nanos: 0, offset_secs: 3600 });
    assert!(!sync_due(&feed(60), &last, &ts(1059)));
    assert!(!sync_due(&feed(60), &last, &ts(1060)));
    assert!(sync_due(&feed(60), &last, &Timestamp { secs: 1060, nanos: 1, offset_secs: 0 }));
    assert!(sync_due(&feed(0), &last, &ts(1000 + 86401)));
    assert!(!sync_due(&feed(0), &last, &ts(1000 + 86399)));
}

#[test]
fn due_time_range() {
    assert!(sync_due_in_range(&feed(60), &None));
    assert!(sync_due_in_range(&feed(60), &Some(ts(0))));
    assert!(!sync_due_in_range(&feed(60), &Some(ts(MAX_UTC_SECS - 10))));
}

fn article_at(secs: i64, offset: i32, title: &str) -> Article {
    let t = Timestamp { secs, nanos: 0, offset_secs: offset };
    Article::new(None, title.to_string(), String::new(), String::new(), String::new(), String::new(), String::new(), t, String::new(), None, ts(0), ts(0), false, false, "u")
}

#[test]
fn latest_pub_time_is_the_last_of_equal_maxima() {
    let v = vec![article_at(5, 0, "a"), article_at(9, 1, "b"), article_at(9, 2, "c"), article_at(3, 0, "d")];
    let t = latest_pub_time(&v).unwrap();
    assert_eq!(t.secs, 9);
    assert_eq!(t.offset_secs, 2);
    assert!(latest_pub_time(&Vec::new()).is_none());
}

#[test]
fn success_log_dates() {
    let v = vec![article_at(5, 0, "a"), article_at(9, 0, "b")];
    let log = sync_success_log("f1", &Some(Timestamp { secs: 77, nanos: 0, offset_secs: 60 }), &v, ts(100));
    assert_eq!(log.feed_id, "f1");
    assert_eq!(log.last_pub_date.map(|t| (t.secs, t.offset_secs)), Some((77, 0)));
    assert!(log.healthy);
    assert_eq!(log.create_time.secs, 100);
    let log2 = sync_success_log("f1", &None, &v, ts(100));
    assert_eq!(log2.last_pub_date.map(|t| t.secs), Some(9));
    let log3 = sync_success_log("f1", &None, &Vec::new(), ts(100));
    assert!(log3.last_pub_date.is_none());
}

#[test]
fn results_of_fetches() {
    let ok = sync_success_result(&feed(0), &Some("Doc title".to_string()), 4);
    assert_eq!((ok.feed_id.as_str(), ok.title.as_str(), ok.count, ok.err_info.as_str()), ("f1", "Doc title", 4, ""));
    let untitled = sync_success_result(&feed(0), &None, 0);
    assert_eq!(untitled.title, "http://f/rss");
    let (log, res) = sync_failure(&feed(0), "boom", ts(5));
    assert!(!log.healthy);
    assert_eq!(log.log, "boom");
    assert_eq!(log.feed_id, "f1");
    assert_eq!(res.title, "Stored title");
    assert_eq!(res.count, 0);
    assert_eq!(res.err_info, "boom");
}

fn result(id: &str, title: &str, count: u64) -> FeedSyncResult {
    FeedSyncResult { feed_id: id.to_string(), title: title.to_string(), count, err_info: String::new() }
}

#[test]
fn results_by_feed_keep_the_last_result() {
    let rs = vec![result("a", "first", 1), result("b", "bee", 2), result("a", "second", 3)];
    let mut m = sync_results_by_feed(&rs);
    m.sort_by(|x, y| x.0.cmp(&y.0));
    assert_eq!(m.len(), 2);
    assert_eq!(m[0].0, "a");
    assert_eq!((m[0].1 .0.as_str(), m[0].1 .1), ("second", 3));
    assert_eq!((m[1].1 .0.as_str(), m[1].1 .1), ("bee", 2));
    assert!(sync_results_by_feed(&Vec::new()).is_empty());
}

#[test]
fn folders() {
    let f = new_folder("u-1", "News");
    assert_eq!(f.id, "u-1");
    assert_eq!(f.title, "News");
    assert_eq!(f.link, "folder-News");
    assert_eq!(f.feed_url, "folder-News");
    assert_eq!(f.item_type, FeedTypeMark::Folder);
    assert_eq!(f.sync_interval_sec, 86400);
    assert!(!f.is_channel());
}

#[test]
fn subscriptions() {
    let info = FeedInfo {
        title: Some("T".to_string()),
        links: Vec::new(),
        description: None,
        logo: None,
        updated: None,
        entries: vec![EntryInfo { id: "e".to_string(), title: None, links: Vec::new(), summary: None, content: None, published: None, authors: Vec::new() }],
    };
    let (f, arts) = new_subscription("u-2", "http://x/rss", &info, ts(3));
    assert_eq!(f.id, "u-2");
    assert_eq!(f.feed_url, "http://x/rss");
    assert_eq!(f.sort, 0);
    assert!(f.is_channel());
    assert_eq!(arts.len(), 1);
    assert_eq!(arts[0].feed_id, "u-2");
}

#[test]
fn cached_content_only_when_not_empty() {
    let mut a = article_at(0, 0, "x");
    assert!(cached_content_to_serve(&a).is_none());
    a.cached_content = Some(String::new());
    assert!(cached_content_to_serve(&a).is_none());
    a.cached_content = Some("<html/>".to_string());
    assert_eq!(cached_content_to_serve(&a).as_deref(), Some("<html/>"));
}

fn s(x: &str) -> String {
    x.to_string()
}

#[test]
fn counts_roll_up_to_parents() {
    let rows = vec![(s("f1"), 3), (s("f2"), 4)];
    let tree = vec![(s("f1"), Some(s("dir"))), (s("f2"), Some(s("dir"))), (s("dir"), Some(s("top"))), (s("f3"), None)];
    let mut v = count_per_feed(&rows, &tree).unwrap();
    v.sort();
    assert_eq!(v, vec![(s("dir"), 7), (s("f1"), 3), (s("f2"), 4), (s("top"), 7)]);
}

#[test]
fn count_rows_later_rows_replace_earlier() {
    let rows = vec![(s("f1"), 3), (s("f1"), 5)];
    assert_eq!(count_per_feed(&rows, &Vec::new()).unwrap(), vec![(s("f1"), 5)]);
}

#[test]
fn count_overflow_is_reported() {
    let rows = vec![(s("a"), i64::MAX), (s("p"), 1)];
    let tree = vec![(s("a"), Some(s("p")))];
    assert!(count_per_feed(&rows, &tree).is_none());
}
