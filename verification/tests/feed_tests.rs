use rss_reader::feed_parse::{EntryInfo, FeedInfo};
use rss_reader::feeds::{map_entries_to_articles, map_entry_to_article, map_feed_to_feed};
use rss_reader::model::{Feed, FeedTypeMark};
use rss_reader::time::Timestamp;

fn ts(secs: i64) -> Timestamp {
    Timestamp { secs, nanos: 0, offset_secs: 0 }
}

fn feed() -> Feed {
    Feed {
        id: "feed-1".to_string(),
        parent_id: None,
        title: "My Feed".to_string(),
        link: "http://site".to_string(),
        item_type: FeedTypeMark::Feed,
        logo: String::new(),
        feed_url: "http://site/rss".to_string(),
        description: String::new(),
        create_time: ts(0),
        update_time: ts(0),
        sort: 0,
        sync_interval_sec: 3600,
    }
}

fn entry() -> EntryInfo {
    EntryInfo {
        id: "guid-1".to_string(),
        title: Some("Title".to_string()),
        links: vec!["http://site/1".to_string(), "http://site/1b".to_string()],
        summary: Some("Summary".to_string()),
        content: Some(Some("<p>Body</p>".to_string())),
        published: Some(Timestamp { secs: 1000, nanos: 5, offset_secs: 0 }),
        authors: vec!["Ann".to_string(), "Bob".to_string()],
    }
}

#[test]
fn entry_becomes_unread_article() {
    let now = ts(5000);
    let a = map_entry_to_article(&entry(), &feed(), now);
    assert_eq!(a.pub_id.as_deref(), Some("guid-1"));
    assert_eq!(a.title, "Title");
    assert_eq!(a.link, "http://site/1");
    assert_eq!(a.feed_id, "feed-1");
    assert_eq!(a.feed_title, "My Feed");
    assert_eq!(a.description, "Summary");
    assert_eq!(a.author, "Ann; Bob");
    assert_eq!(a.pub_time.secs, 1000);
    assert_eq!(a.pub_time.nanos, 5);
    assert_eq!(a.content, "<p>Body</p>");
    assert!(a.cached_content.is_none());
    assert_eq!(a.create_time.secs, 5000);
    assert!(!a.is_read && !a.is_starred);
    let expected = format!(
        "{:x}",
        md5::compute(format!("{:?} {} {}", Some("guid-1"), "http://site/rss", "Title"))
    );
    assert_eq!(a.get_id(), expected);
}

#[test]
fn missing_entry_fields_become_empty() {
    let e = EntryInfo {
        id: "x".to_string(),
        title: None,
        links: Vec::new(),
        summary: None,
        content: Some(None),
        published: None,
        authors: Vec::new(),
    };
    let a = map_entry_to_article(&e, &feed(), ts(1));
    assert_eq!(a.title, "");
    assert_eq!(a.link, "");
    assert_eq!(a.description, "");
    assert_eq!(a.content, "");
    assert_eq!(a.author, "");
    assert_eq!(a.pub_time.secs, 0);
    assert_eq!(a.pub_time.nanos, 0);
}

#[test]
fn feed_document_becomes_stored_feed() {
    let info = FeedInfo {
        title: Some("Site".to_string()),
        links: vec!["http://site".to_string()],
        description: Some("About".to_string()),
        logo: Some("http://site/logo.png".to_string()),
        updated: None,
        entries: vec![entry()],
    };
    let f = map_feed_to_feed("uuid-1", Some("ignored".to_string()), &3, "http://site/rss", &info);
    assert_eq!(f.id, "uuid-1");
    assert!(f.parent_id.is_none());
    assert_eq!(f.title, "Site");
    assert_eq!(f.link, "http://site");
    assert_eq!(f.item_type, FeedTypeMark::Feed);
    assert_eq!(f.logo, "http://site/logo.png");
    assert_eq!(f.feed_url, "http://site/rss");
    assert_eq!(f.description, "About");
    assert_eq!(f.sort, 3);
    assert_eq!(f.sync_interval_sec, 86400);
    assert_eq!(f.create_time.secs, 0);
    let articles = map_entries_to_articles(&info, &f, ts(9));
    assert_eq!(articles.len(), 1);
    assert_eq!(articles[0].feed_id, "uuid-1");
    assert_eq!(articles[0].title, "Title");
    assert_eq!(articles[0].link, "http://site/1");
    assert_eq!(articles[0].description, "Summary");
    assert_eq!(articles[0].content, "<p>Body</p>");
    assert_eq!(articles[0].author, "Ann; Bob");
    assert_eq!(articles[0].feed_title, f.title);
}

