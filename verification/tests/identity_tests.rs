use rss_reader::digest::{
    attachment_cache_id, decode_proxy_target, md5_hex_of, option_debug_of, replace_char_in,
    ProxyUrlError,
};
use rss_reader::model::{Article, FeedTypeMark, FeedTypeParseError};
use rss_reader::time::Timestamp;

#[test]
fn md5_hex_of_known_inputs() {
    assert_eq!(md5_hex_of(""), "d41d8cd98f00b204e9800998ecf8427e");
    assert_eq!(md5_hex_of("abc"), "900150983cd24fb0d6963f7d28e17f72");
}

#[test]
fn option_debug_matches_format() {
    assert_eq!(option_debug_of(&None), "None");
    assert_eq!(option_debug_of(&Some("a\"b\\c".to_string())), format!("{:?}", Some("a\"b\\c")));
    assert_eq!(option_debug_of(&Some("id-1".to_string())), "Some(\"id-1\")");
}

fn epoch() -> Timestamp {
    Timestamp { secs: 0, nanos: 0, offset_secs: 0 }
}

fn article(pub_id: Option<&str>, title: &str, feed_url: &str) -> Article {
    Article::new(
        pub_id.map(|s| s.to_string()),
        title.to_string(),
        "http://a/1".to_string(),
        "feed-1".to_string(),
        "Feed".to_string(),
        "desc".to_string(),
        "me".to_string(),
        epoch(),
        "body".to_string(),
        None,
        epoch(),
        epoch(),
        false,
        false,
        feed_url,
    )
}

#[test]
fn article_id_is_md5_of_pub_id_feed_url_and_title() {
    let a = article(Some("guid-7"), "Hello", "http://f/rss");
    let expected = format!(
        "{:x}",
        md5::compute(format!("{:?} {} {}", Some("guid-7".to_string()), "http://f/rss", "Hello"))
    );
    assert_eq!(a.get_id(), expected);
    let b = article(None, "Hello", "http://f/rss");
    let expected_none = format!(
        "{:x}",
        md5::compute(format!("{:?} {} {}", None::<String>, "http://f/rss", "Hello"))
    );
    assert_eq!(b.get_id(), expected_none);
    assert_ne!(a.get_id(), b.get_id());
    assert_eq!(a.get_id().len(), 32);
}

#[test]
fn article_id_is_stable() {
    let a = article(Some("g"), "T", "u");
    let b = article(Some("g"), "T", "u");
    assert_eq!(a.get_id(), b.get_id());
    let c = article(Some("g"), "T2", "u");
    assert_ne!(a.get_id(), c.get_id());
}

#[test]
fn new_from_db_keeps_the_stored_id() {
    let a = Article::new_from_db(
        "stored".to_string(),
        None,
        "t".to_string(),
        "l".to_string(),
        "f".to_string(),
        "ft".to_string(),
        "d".to_string(),
        "a".to_string(),
        epoch(),
        "c".to_string(),
        Some("cached".to_string()),
        epoch(),
        epoch(),
        true,
        false,
    );
    assert_eq!(a.get_id(), "stored");
    assert!(a.is_read);
    assert_eq!(a.cached_content.as_deref(), Some("cached"));
}

#[test]
fn feed_type_names() {
    assert_eq!(FeedTypeMark::Feed.as_ref(), "channel");
    assert_eq!(FeedTypeMark::Folder.as_ref(), "folder");
    assert_eq!(FeedTypeMark::Feed.serialize(), "channel");
    assert_eq!(FeedTypeMark::from_str("channel"), Ok(FeedTypeMark::Feed));
    assert_eq!(FeedTypeMark::from_str("folder"), Ok(FeedTypeMark::Folder));
    assert_eq!(FeedTypeMark::from_str("Channel"), Err(FeedTypeParseError::VariantNotFound));
    assert_eq!(FeedTypeMark::from_str("feed"), Err(FeedTypeParseError::VariantNotFound));
    for m in [FeedTypeMark::Feed, FeedTypeMark::Folder] {
        assert_eq!(FeedTypeMark::from_str(&m.as_ref()), Ok(m));
    }
}

#[test]
fn proxy_target_decodes_base64_with_underscores() {
    assert_eq!(decode_proxy_target("aHR0cDovL2EuY29tL3guanBn"), Ok("http://a.com/x.jpg".to_string()));
    // base64 of "??>" is "Pz8+", of "???" is "Pz8_": '/' arrives as '_'.
    assert_eq!(decode_proxy_target("Pz8_"), Ok("???".to_string()));
    assert_eq!(decode_proxy_target("Pz8/"), Ok("???".to_string()));
    assert_eq!(decode_proxy_target("not base64!"), Err(ProxyUrlError::Base64));
    assert_eq!(decode_proxy_target("_w=="), Err(ProxyUrlError::Utf8));
}

#[test]
fn cache_id_hashes_the_address_as_sent() {
    assert_eq!(attachment_cache_id("Pz8_"), format!("{:x}", md5::compute("Pz8_")));
    assert_ne!(attachment_cache_id("Pz8_"), attachment_cache_id("Pz8/"));
}

#[test]
fn replace_char_replaces_every_occurrence() {
    assert_eq!(replace_char_in("a_b__c", '_', '/'), "a/b//c");
    assert_eq!(replace_char_in("", '_', '/'), "");
}
