use rss_reader::dto::{ArticleFilterReq, FeedSortReq, FeedsCountReq, MarkAllReadReq, SearchReq};
use rss_reader::model::{Article, FeedLog};
use rss_reader::query::{
    articles_query, collect_sub_ids, count_query, get_last_success_feed_log, get_sub_ids_as_sql_seg,
    insert_decision, mark_read_scope, search_params, sort_parent, sub_feeds_query,
    sync_interval_param, MarkReadScope, StoredVersion,
};
use rss_reader::time::Timestamp;

fn filter() -> ArticleFilterReq {
    ArticleFilterReq {
        feed_id: None,
        is_today: None,
        is_starred: None,
        is_read: None,
        keyword: None,
        cursor: None,
        limit: None,
    }
}

const BASE: &str = "select a.* from feed f left join article a on a.feed_id = f.id ";
const ORDER: &str = " order by is_starred desc, pub_time desc ";

#[test]
fn sql_segment_quotes_ids() {
    assert_eq!(get_sub_ids_as_sql_seg(&vec!["a".to_string(), "b".to_string()]), "('a','b')");
    assert_eq!(get_sub_ids_as_sql_seg(&Vec::new()), "()");
}

#[test]
fn plain_listing_has_only_the_current_condition() {
    let q = articles_query(&filter(), &None);
    assert_eq!(q, format!("{}{}{}", BASE, " where  is_current = true ", ORDER));
}

#[test]
fn listing_with_every_condition() {
    let mut f = filter();
    f.feed_id = Some("x".to_string());
    f.is_today = Some(true);
    f.is_read = Some(false);
    f.is_starred = Some(true);
    f.limit = Some(20);
    f.cursor = Some(3);
    let q = articles_query(&f, &Some("('x','y')".to_string()));
    let expected = format!(
        "{}{}{}{}",
        BASE,
        " where f.id in ('x','y')  and  DATE(a.pub_time) = DATE('now')  and  is_read = false  and  is_starred = true  and  is_current = true ",
        ORDER,
        " limit 20  offset 40 "
    );
    assert_eq!(q, expected);
}

#[test]
fn listing_conditions_that_do_not_apply_are_left_out() {
    let mut f = filter();
    f.is_today = Some(false);
    f.is_starred = Some(false);
    f.is_read = Some(true);
    f.cursor = Some(2);
    let q = articles_query(&f, &None);
    assert_eq!(q, format!("{}{}{}", BASE, " where  is_read = true  and  is_current = true ", ORDER));
    let mut g = filter();
    g.limit = Some(5);
    g.cursor = Some(0);
    assert!(articles_query(&g, &None).ends_with(" limit 5  offset -5 "));
}

#[test]
fn search_parameters() {
    let p = search_params(&SearchReq { query: "rust".to_string(), limit: None, cursor: None });
    assert_eq!(p.pattern, "%rust%");
    assert_eq!(p.limit, 12);
    assert_eq!(p.offset, 0);
    let q = search_params(&SearchReq { query: String::new(), limit: Some(10), cursor: Some(4) });
    assert_eq!(q.pattern, "%%");
    assert_eq!(q.limit, 10);
    assert_eq!(q.offset, 30);
}

#[test]
fn count_queries_by_filter() {
    let q = count_query(&FeedsCountReq { filter: 0 });
    assert!(q.contains("WHERE  is_starred = true  and is_current = true"));
    assert!(count_query(&FeedsCountReq { filter: 1 }).contains(" is_read = false "));
    assert!(count_query(&FeedsCountReq { filter: 7 }).contains(" 1 = 1 "));
    assert!(q.starts_with("SELECT\n            feed_id,"));
    assert!(q.ends_with("GROUP BY feed_id"));
}

#[test]
fn sort_parent_is_empty_for_self() {
    let r = FeedSortReq { item_type: "channel".to_string(), uuid: "a".to_string(), folder_uuid: "a".to_string(), sort: 1 };
    assert_eq!(sort_parent(&r), "");
    let s = FeedSortReq { item_type: "channel".to_string(), uuid: "a".to_string(), folder_uuid: "f".to_string(), sort: 1 };
    assert_eq!(sort_parent(&s), "f");
}

#[test]
fn interval_is_reinterpreted_as_signed() {
    assert_eq!(sync_interval_param(3600), 3600);
    assert_eq!(sync_interval_param(u32::MAX), -1);
    assert_eq!(sync_interval_param(2147483648), i32::MIN);
}

#[test]
fn mark_read_scopes() {
    let all = MarkAllReadReq { uuid: Some("x".to_string()), is_today: None, is_all: Some(true) };
    assert!(matches!(mark_read_scope(&all), MarkReadScope::AllFeeds));
    let sub = MarkAllReadReq { uuid: Some("x".to_string()), is_today: None, is_all: Some(false) };
    assert!(matches!(mark_read_scope(&sub), MarkReadScope::SubTree(ref s) if s == "x"));
    let none = MarkAllReadReq { uuid: None, is_today: None, is_all: None };
    assert!(matches!(mark_read_scope(&none), MarkReadScope::Nothing));
}

fn log(healthy: bool, secs: i64, name: &str) -> FeedLog {
    let t = Timestamp { secs, nanos: 0, offset_secs: 0 };
    FeedLog { feed_id: name.to_string(), last_pub_date: None, healthy, log: String::new(), create_time: t, update_time: t }
}

#[test]
fn last_success_is_latest_healthy_log_and_last_among_ties() {
    let logs = vec![log(true, 10, "a"), log(false, 50, "b"), log(true, 30, "c"), log(true, 30, "d"), log(true, 20, "e")];
    assert_eq!(get_last_success_feed_log(&logs), Some(3));
    assert_eq!(get_last_success_feed_log(&vec![log(false, 1, "x")]), None);
    assert_eq!(get_last_success_feed_log(&Vec::new()), None);
}

#[test]
fn sub_ids_include_root_children_and_parents_once() {
    let rows = vec![("b".to_string(), "a".to_string()), ("c".to_string(), "b".to_string())];
    let mut ids = collect_sub_ids("a", &rows);
    ids.sort();
    assert_eq!(ids, vec!["a".to_string(), "b".to_string(), "c".to_string()]);
    assert_eq!(collect_sub_ids("z", &Vec::new()), vec!["z".to_string()]);
}

#[test]
fn sub_feeds_query_text() {
    assert_eq!(sub_feeds_query("('a')"), "select * from feed where id in ('a') and feed_type = $1");
}

fn article(title: &str, desc: &str, content: &str) -> Article {
    let t = Timestamp { secs: 0, nanos: 0, offset_secs: 0 };
    Article::new(None, title.to_string(), String::new(), String::new(), String::new(), desc.to_string(), String::new(), t, content.to_string(), None, t, t, false, false, "u")
}

#[test]
fn new_articles_are_inserted() {
    let a = article("Title", "Desc", "Body");
    let d = insert_decision(&Vec::new(), &a);
    assert!(d.insert);
    assert!(!d.retire_previous);
}

#[test]
fn unchanged_articles_are_not_inserted_again() {
    let a = article(" Title ", "Desc", "<p>Body</p>");
    let stored = vec![StoredVersion { title: "Title".to_string(), description: "<b>Desc</b>".to_string(), content: "<div>Body</div>".to_string() }];
    let d = insert_decision(&stored, &a);
    assert!(!d.insert);
    assert!(!d.retire_previous);
}

#[test]
fn changed_articles_replace_the_stored_version() {
    let a = article("Title", "Desc", "New body");
    let stored = vec![StoredVersion { title: "Title".to_string(), description: "Desc".to_string(), content: "Old body".to_string() }];
    let d = insert_decision(&stored, &a);
    assert!(d.insert);
    assert!(d.retire_previous);
}

#[test]
fn false_today_or_starred_flags_list_as_unset() {
    let mut f = filter();
    f.is_today = Some(false);
    f.is_starred = Some(false);
    f.limit = Some(10);
    let mut g = filter();
    g.limit = Some(10);
    assert_eq!(articles_query(&f, &None), articles_query(&g, &None));
    let mut r = filter();
    r.is_read = Some(false);
    assert_ne!(articles_query(&r, &None), articles_query(&filter(), &None));
}
