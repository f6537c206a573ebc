use rss_reader::assets::{asset_path, index_path};
use rss_reader::dto::ArticleFilterReq;
use rss_reader::listing::{listing_filter, subscribe_item};
use rss_reader::model::{Feed, FeedLog, FeedTypeMark, PageScraperResult, PostgresConfig};
use rss_reader::time::Timestamp;

#[test]
fn asset_paths() {
    assert_eq!(asset_path("/dist/app.js"), "app.js");
    assert_eq!(asset_path("//dist/dist/a.css"), "a.css");
    assert_eq!(asset_path("/assets/dist/x.js"), "assets/dist/x.js");
    assert_eq!(asset_path("/dist/sub/dist/y"), "sub/y");
    assert_eq!(asset_path("/dis"), "dis");
    assert_eq!(asset_path("/"), "");
    assert_eq!(index_path(), "index.html");
}

fn ts(secs: i64) -> Timestamp {
    Timestamp { secs, nanos: 0, offset_secs: 0 }
}

fn entry(kind: FeedTypeMark) -> Feed {
    Feed {
        id: "id".to_string(),
        parent_id: Some("p".to_string()),
        title: "Name".to_string(),
        link: "l".to_string(),
        item_type: kind,
        logo: "logo".to_string(),
        feed_url: "u".to_string(),
        description: "d".to_string(),
        create_time: ts(11),
        update_time: ts(12),
        sort: 4,
        sync_interval_sec: 60,
    }
}

#[test]
fn subscribe_items() {
    let f = subscribe_item(&entry(FeedTypeMark::Folder));
    assert_eq!(f.folder_uuid.as_deref(), Some("id"));
    assert_eq!(f.folder_name.as_deref(), Some("Name"));
    assert_eq!(f.health_status, 1);
    assert_eq!(f.last_sync_date, "1999-12-31");
    assert_eq!(f.pub_date.secs, 11);
    assert_eq!(f.parent_id.as_deref(), Some("p"));
    assert!(!f.is_expanded);
    let c = subscribe_item(&entry(FeedTypeMark::Feed));
    assert!(c.folder_uuid.is_none());
    assert!(c.folder_name.is_none());
    assert_eq!(c.sort, 4);
}

#[test]
fn listing_filter_drops_keyword() {
    let q = ArticleFilterReq { feed_id: Some("f".to_string()), is_today: Some(true), is_starred: None, is_read: Some(false), keyword: Some("k".to_string()), cursor: Some(2), limit: Some(9) };
    let f = listing_filter(&q);
    assert!(f.keyword.is_none());
    assert_eq!(f.feed_id.as_deref(), Some("f"));
    assert_eq!((f.is_today, f.is_read, f.cursor, f.limit), (Some(true), Some(false), Some(2), Some(9)));
}

#[test]
fn default_log_is_healthy_and_empty() {
    let l = FeedLog::default_at(ts(42));
    assert!(l.healthy);
    assert!(l.feed_id.is_empty() && l.log.is_empty());
    assert!(l.last_pub_date.is_none());
    assert_eq!(l.create_time.secs, 42);
}

#[test]
fn time_arithmetic() {
    let t = Timestamp { secs: 100, nanos: 1_500_000_000, offset_secs: 7 };
    let u = t.plus_secs(10);
    assert_eq!((u.secs, u.nanos, u.offset_secs), (110, 500_000_000, 7));
    assert!(ts(1).is_before(&ts(2)));
    assert!(!ts(2).is_before(&ts(2)));
    assert!(Timestamp { secs: 2, nanos: 0, offset_secs: 0 }.is_before(&Timestamp { secs: 2, nanos: 1, offset_secs: -5 }));
    assert_eq!(t.in_utc().offset_secs, 0);
    assert_eq!(Timestamp::epoch().secs, 0);
}

#[test]
fn postgres_config_accessors() {
    let c = PostgresConfig::new("u".to_string(), "p".to_string(), "db".to_string(), "h".to_string(), 5432);
    assert_eq!((c.user(), c.pass(), c.dbname(), c.host(), c.port()), ("u", "p", "db", "h", 5432));
}

#[test]
fn empty_scraper_result() {
    let r = PageScraperResult::empty();
    assert!(r.title.is_empty() && r.url.is_empty() && r.excerpt.is_empty());
}
