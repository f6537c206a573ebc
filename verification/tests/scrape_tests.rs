use rss_reader::model::ProxyConfig;
use rss_reader::scrape::{
    attachment_content_type, classify_feed_status, feed_not_found_message, page_status_ok,
    plan_request, proxy_scheme, record_proxy_success, FeedResponse, RequestError,
};
use rss_reader::set::StringSet;

#[test]
fn string_set_holds_each_item_once() {
    let mut s = StringSet::new();
    assert!(!s.contains("a.com"));
    s.insert("a.com");
    s.insert("b.com");
    s.insert("a.com");
    assert!(s.contains("a.com"));
    assert!(s.contains("b.com"));
    assert_eq!(s.to_vec(), vec!["a.com".to_string(), "b.com".to_string()]);
    s.extend(&vec!["c.com".to_string(), "b.com".to_string()]);
    assert_eq!(s.to_vec().len(), 3);
}

#[test]
fn unknown_hosts_go_direct_then_retry_through_proxy() {
    let blocked = StringSet::new();
    let plan = plan_request(&blocked, true, "https://example.com/a").unwrap();
    assert_eq!(plan.host.as_deref(), Some("example.com"));
    assert!(!plan.use_proxy);
    assert!(plan.retry_with_proxy);
    let no_proxy = plan_request(&blocked, false, "https://example.com/a").unwrap();
    assert!(!no_proxy.use_proxy);
    assert!(!no_proxy.retry_with_proxy);
}

#[test]
fn a_host_that_needed_the_proxy_uses_it_next_time() {
    let mut blocked = StringSet::new();
    let first = plan_request(&blocked, true, "https://slow.example/feed").unwrap();
    record_proxy_success(&mut blocked, &first);
    let next = plan_request(&blocked, true, "https://slow.example/other").unwrap();
    assert!(next.use_proxy);
    assert!(!next.retry_with_proxy);
    let other = plan_request(&blocked, true, "https://fast.example/").unwrap();
    assert!(!other.use_proxy);
}

#[test]
fn invalid_urls_are_refused() {
    let blocked = StringSet::new();
    assert_eq!(plan_request(&blocked, true, "not a url").err(), Some(RequestError::InvalidUrl));
}

#[test]
fn proxy_scheme_is_http_address_and_port() {
    let p = ProxyConfig { ip: "127.0.0.1".to_string(), port: 8080, username: None, password: None };
    assert_eq!(proxy_scheme(&p), "http://127.0.0.1:8080");
    let q = ProxyConfig { ip: "h".to_string(), port: -1, username: Some("u".to_string()), password: None };
    assert_eq!(proxy_scheme(&q), "http://h:-1");
    let bare = q.without_credentials();
    assert!(bare.username.is_none());
    assert_eq!(bare.port, -1);
}

#[test]
fn statuses() {
    assert_eq!(classify_feed_status(200), FeedResponse::Parse);
    assert_eq!(classify_feed_status(404), FeedResponse::NotFound);
    assert_eq!(classify_feed_status(500), FeedResponse::Unexpected);
    assert!(page_status_ok(200));
    assert!(!page_status_ok(301));
    assert_eq!(
        feed_not_found_message("http://x/rss"),
        "Could not find a feed at the location, http://x/rss"
    );
}

#[test]
fn attachment_type_defaults_to_html() {
    assert_eq!(attachment_content_type(&None), "text/html");
    assert_eq!(attachment_content_type(&Some("image/png".to_string())), "image/png");
}
