//! The decisions of the article and feed store: how queries are written
//! from requests, which feeds a request covers, which fetch log counts as the
//! last success, and whether a fetched article is new.
use vstd::prelude::*;

use crate::dto::{ArticleFilterReq, FeedSortReq, FeedsCountReq, MarkAllReadReq, SearchReq};
use crate::feeds::or_empty;
use crate::html::{contains_only_text, text_of_fragment};
use crate::model::{opt_view, Article, FeedLog};
use crate::text::{
    concat3, contains_seq, i64_to_decimal, int_decimal, join, join_seq, trim, trimmed, views,
};

verus! {

// ---------------------------------------------------------------------------
// Sub-trees of the subscription tree
// ---------------------------------------------------------------------------
/// Each id between single quotes.
pub open spec fn quoted(ids: Seq<Seq<char>>) -> Seq<Seq<char>> {
    ids.map_values(|id: Seq<char>| seq!['\''] + id + seq!['\''])
}

/// A parenthesised, comma-separated list of quoted ids, for `in`.
pub open spec fn id_list_sql(ids: Seq<Seq<char>>) -> Seq<char> {
    seq!['('] + join_seq(quoted(ids), seq![',']) + seq![')']
}

/// The ids as an SQL list: `('a','b')`.
pub fn get_sub_ids_as_sql_seg(ids: &Vec<String>) -> (r: String)
    ensures
        r@ == id_list_sql(views(ids@)),
{
    let mut q: Vec<String> = Vec::new();
    let mut i: usize = 0;
    while i < ids.len()
        invariant
            0 <= i <= ids.len(),
            views(q@) == quoted(views(ids@)).take(i as int),
        decreases ids.len() - i,
    {
        let ghost before = q@;
        let item = concat3("'", ids[i].as_str(), "'");
        proof {
            reveal_strlit("'");
            assert("'"@ =~= seq!['\'']);
            assert(item@ =~= seq!['\''] + ids@[i as int]@ + seq!['\'']);
        }
        q.push(item);
        assert(views(q@) =~= views(before).push(item@));
        assert(quoted(views(ids@)).take(i + 1) =~= quoted(views(ids@)).take(i as int).push(
            seq!['\''] + ids@[i as int]@ + seq!['\''],
        ));
        i = i + 1;
    }
    assert(quoted(views(ids@)).take(ids.len() as int) =~= quoted(views(ids@)));
    let inner = join(&q, ",");
    proof {
        reveal_strlit(",");
        reveal_strlit("(");
        reveal_strlit(")");
        assert(","@ =~= seq![',']);
        assert("("@ =~= seq!['(']);
        assert(")"@ =~= seq![')']);
    }
    let r = concat3("(", inner.as_str(), ")");
    assert(r@ =~= id_list_sql(views(ids@)));
    r
}

/// The ids a sub-tree query found, together with the root: each child id
/// and each parent id of `rows`, and `id` itself, each once.
pub fn collect_sub_ids(id: &str, rows: &Vec<(String, String)>) -> (r: Vec<String>)
    ensures
        views(r@).no_duplicates(),
        forall|x: Seq<char>|
            views(r@).contains(x) <==> (x == id@ || exists|k: int|
                0 <= k < rows.len() && (#[trigger] rows@[k].0@ == x || rows@[k].1@ == x)),
{
    let mut set = crate::set::StringSet::new();
    let mut i: usize = 0;
    while i < rows.len()
        invariant
            0 <= i <= rows.len(),
            set.wf(),
            forall|x: Seq<char>|
                set.view().contains(x) <==> exists|k: int|
                    0 <= k < i && (#[trigger] rows@[k].0@ == x || rows@[k].1@ == x),
        decreases rows.len() - i,
    {
        set.insert(rows[i].0.as_str());
        set.insert(rows[i].1.as_str());
        proof {
            assert forall|x: Seq<char>|
                set.view().contains(x) <==> exists|k: int|
                    0 <= k < i + 1 && (#[trigger] rows@[k].0@ == x || rows@[k].1@ == x) by {
                if x == rows@[i as int].0@ || x == rows@[i as int].1@ {
                    assert(rows@[i as int].0@ == x || rows@[i as int].1@ == x);
                }
            }
        }
        i = i + 1;
    }
    let ghost rows_set = set.view();
    set.insert(id);
    let r = set.to_vec();
    assert forall|x: Seq<char>|
        views(r@).contains(x) <==> (x == id@ || exists|k: int|
            0 <= k < rows.len() && (#[trigger] rows@[k].0@ == x || rows@[k].1@ == x)) by {
        assert(views(r@).to_set().contains(x) == views(r@).contains(x));
        assert(set.view().contains(x) == (rows_set.contains(x) || x == id@));
    }
    r
}

/// The query for the feeds (not folders) among the ids of `segment`; its
/// one parameter is the stored name of feeds.
pub fn sub_feeds_query(segment: &str) -> (r: String)
    ensures
        r@ == "select * from feed where id in "@ + segment@ + " and feed_type = $1"@,
{
    concat3("select * from feed where id in ", segment, " and feed_type = $1")
}

// ---------------------------------------------------------------------------
// Listing articles
// ---------------------------------------------------------------------------
/// `seq![c]` when `b` holds, else nothing.
pub open spec fn cond_if(b: bool, c: Seq<char>) -> Seq<Seq<char>> {
    if b {
        seq![c]
    } else {
        Seq::empty()
    }
}

/// The conditions an article listing applies, in order; `segment` is the
/// id list of the requested sub-tree.
pub open spec fn article_conditions(f: &ArticleFilterReq, segment: Seq<char>) -> Seq<Seq<char>> {
    cond_if(f.feed_id is Some, "f.id in "@ + segment + " "@) + cond_if(
        f.is_today == Some(true),
        " DATE(a.pub_time) = DATE('now') "@,
    ) + match f.is_read {
        Some(true) => seq![" is_read = true "@],
        Some(false) => seq![" is_read = false "@],
        None => Seq::empty(),
    } + cond_if(f.is_starred == Some(true), " is_starred = true "@) + seq![
        " is_current = true "@,
    ]
}

/// The paging part: ` limit L `, then ` offset (C-1)*L ` when a cursor is
/// given too.
pub open spec fn page_clause(limit: Option<i32>, cursor: Option<i32>) -> Seq<char> {
    match limit {
        None => Seq::empty(),
        Some(l) => " limit "@ + int_decimal(l as int) + " "@ + match cursor {
            None => Seq::empty(),
            Some(c) => " offset "@ + int_decimal((c - 1) * l) + " "@,
        },
    }
}

/// The query an article listing runs.
pub open spec fn articles_sql(f: &ArticleFilterReq, segment: Seq<char>) -> Seq<char> {
    "select a.* from feed f left join article a on a.feed_id = f.id "@ + " where "@ + join_seq(
        article_conditions(f, segment),
        " and "@,
    ) + " order by is_starred desc, pub_time desc "@ + page_clause(f.limit, f.cursor)
}

/// The page clause of a listing.
fn page_sql(limit: Option<i32>, cursor: Option<i32>) -> (r: String)
    requires
        limit is Some && cursor is Some ==> cursor.unwrap() > i32::MIN,
    ensures
        r@ == page_clause(limit, cursor),
{
    let mut r = String::new();
    match limit {
        None => {
            assert(r@ =~= page_clause(limit, cursor));
        },
        Some(l) => {
            r.append(" limit ");
            let ls = i64_to_decimal(l as i64);
            r.append(ls.as_str());
            r.append(" ");
            let ghost head = r@;
            match cursor {
                None => {
                    assert(r@ =~= page_clause(limit, cursor));
                },
                Some(c) => {
                    let c1: i32 = c - 1;
                    assert(c1 * l <= 4611686018427387904 && c1 * l >= -4611686018427387904) by (
                    nonlinear_arith)
                        requires
                            -2147483648 <= c1 <= 2147483647,
                            -2147483648 <= l <= 2147483647,
                    ;
                    let offset: i64 = c1 as i64 * l as i64;
                    r.append(" offset ");
                    let os = i64_to_decimal(offset);
                    r.append(os.as_str());
                    r.append(" ");
                    assert(r@ =~= page_clause(limit, cursor));
                },
            }
        },
    }
    r
}

/// The query that lists articles for `filter`, newest first with starred
/// ones ahead; `feed_segment` is the id list of the requested sub-tree and
/// is used when the filter names a feed. Only current versions are listed.
pub fn articles_query(filter: &ArticleFilterReq, feed_segment: &Option<String>) -> (r: String)
    requires
        filter.feed_id is Some ==> feed_segment is Some,
        filter.limit is Some && filter.cursor is Some ==> filter.cursor.unwrap() > i32::MIN,
    ensures
        r@ == articles_sql(filter, or_empty(opt_view(feed_segment))),
{
    let ghost segment = or_empty(opt_view(feed_segment));
    let mut conds: Vec<String> = Vec::new();
    let ghost c1 = cond_if(filter.feed_id is Some, "f.id in "@ + segment + " "@);
    if filter.feed_id.is_some() {
        let seg = match feed_segment {
            Some(s) => s.as_str(),
            None => "",
        };
        conds.push(concat3("f.id in ", seg, " "));
    }
    assert(views(conds@) =~= c1);
    let ghost c2 = c1 + cond_if(filter.is_today == Some(true), " DATE(a.pub_time) = DATE('now') "@);
    if filter.is_today == Some(true) {
        conds.push(crate::text::owned(" DATE(a.pub_time) = DATE('now') "));
    }
    assert(views(conds@) =~= c2);
    let ghost c3 = c2 + match filter.is_read {
        Some(true) => seq![" is_read = true "@],
        Some(false) => seq![" is_read = false "@],
        None => Seq::<Seq<char>>::empty(),
    };
    match filter.is_read {
        Some(true) => conds.push(crate::text::owned(" is_read = true ")),
        Some(false) => conds.push(crate::text::owned(" is_read = false ")),
        None => {},
    }
    assert(views(conds@) =~= c3);
    let ghost c4 = c3 + cond_if(filter.is_starred == Some(true), " is_starred = true "@);
    if filter.is_starred == Some(true) {
        conds.push(crate::text::owned(" is_starred = true "));
    }
    assert(views(conds@) =~= c4);
    conds.push(crate::text::owned(" is_current = true "));
    assert(views(conds@) =~= article_conditions(filter, segment));
    let where_part = join(&conds, " and ");
    let mut sql = crate::text::owned("select a.* from feed f left join article a on a.feed_id = f.id ");
    sql.append(" where ");
    sql.append(where_part.as_str());
    sql.append(" order by is_starred desc, pub_time desc ");
    let page = page_sql(filter.limit, filter.cursor);
    sql.append(page.as_str());
    sql
}

/// A listing with a limit `l` and no cursor ends with the order clause
/// followed by ` limit l `: the page is limited to `l` articles.
pub proof fn lemma_limit_ends_listing(f: &ArticleFilterReq, segment: Seq<char>)
    requires
        f.limit is Some,
        f.cursor is None,
    ensures
        exists|head: Seq<char>|
            articles_sql(f, segment) == head + " order by is_starred desc, pub_time desc "@
                + " limit "@ + int_decimal(f.limit.unwrap() as int) + " "@,
{
    let head = "select a.* from feed f left join article a on a.feed_id = f.id "@ + " where "@
        + join_seq(article_conditions(f, segment), " and "@);
    assert(articles_sql(f, segment) =~= head + " order by is_starred desc, pub_time desc "@
        + " limit "@ + int_decimal(f.limit.unwrap() as int) + " "@);
}

/// A listing without a limit ends with the order clause: it is not paged,
/// whatever the cursor.
pub proof fn lemma_no_limit_no_paging(f: &ArticleFilterReq, segment: Seq<char>)
    requires
        f.limit is None,
    ensures
        exists|head: Seq<char>|
            articles_sql(f, segment) == head + " order by is_starred desc, pub_time desc "@,
{
    let head = "select a.* from feed f left join article a on a.feed_id = f.id "@ + " where "@
        + join_seq(article_conditions(f, segment), " and "@);
    assert(articles_sql(f, segment) =~= head + " order by is_starred desc, pub_time desc "@);
}

/// With a limit `l`, a cursor `c` only adds ` offset (c-1)*l ` to the
/// listing without a cursor: the limit stays.
pub proof fn lemma_cursor_adds_offset(f: &ArticleFilterReq, g: &ArticleFilterReq, segment: Seq<char>)
    requires
        f.limit is Some,
        f.cursor is None,
        g.cursor is Some,
        g.limit == f.limit,
        g.feed_id is Some <==> f.feed_id is Some,
        g.is_today == f.is_today,
        g.is_read == f.is_read,
        g.is_starred == f.is_starred,
    ensures
        articles_sql(g, segment) == articles_sql(f, segment) + " offset "@ + int_decimal(
            (g.cursor.unwrap() - 1) * f.limit.unwrap(),
        ) + " "@,
{
    assert(article_conditions(f, segment) =~= article_conditions(g, segment));
    assert(articles_sql(g, segment) =~= articles_sql(f, segment) + " offset "@ + int_decimal(
        (g.cursor.unwrap() - 1) * f.limit.unwrap(),
    ) + " "@);
}

/// Asking for `false` on `is_today` or `is_starred` lists the same articles
/// as leaving it unset: only `true` adds a condition (unlike `is_read`).
pub proof fn lemma_false_flags_add_no_condition(
    f1: &ArticleFilterReq,
    f2: &ArticleFilterReq,
    segment: Seq<char>,
)
    requires
        f1.feed_id is Some <==> f2.feed_id is Some,
        f1.is_read == f2.is_read,
        f1.limit == f2.limit,
        f1.cursor == f2.cursor,
        f1.is_today == f2.is_today || (f1.is_today != Some(true) && f2.is_today != Some(true)),
        f1.is_starred == f2.is_starred || (f1.is_starred != Some(true) && f2.is_starred != Some(
            true,
        )),
    ensures
        articles_sql(f1, segment) == articles_sql(f2, segment),
{
    assert(article_conditions(f1, segment) =~= article_conditions(f2, segment));
}

// ---------------------------------------------------------------------------
// Searching
// ---------------------------------------------------------------------------
/// The parameters of a search query.
pub struct SearchParams {
    /// `%query%`, for `ILIKE`.
    pub pattern: String,
    pub limit: i64,
    pub offset: i64,
}

/// The page size of a search: 12 unless given.
pub open spec fn search_limit(req: &SearchReq) -> int {
    match req.limit {
        Some(l) => l as int,
        None => 12,
    }
}

/// The rows a search skips: `(cursor - 1) * limit`, the cursor being 1
/// unless given.
pub open spec fn search_offset(req: &SearchReq) -> int {
    (match req.cursor {
        Some(c) => c as int,
        None => 1,
    } - 1) * search_limit(req)
}

/// The parameters of the search `req`.
pub fn search_params(req: &SearchReq) -> (r: SearchParams)
    requires
        req.cursor is Some ==> req.cursor.unwrap() > i32::MIN,
    ensures
        r.pattern@ == "%"@ + req.query@ + "%"@,
        r.limit == search_limit(req),
        r.offset == search_offset(req),
{
    let pattern = concat3("%", req.query.as_str(), "%");
    let limit: i64 = match req.limit {
        Some(l) => l as i64,
        None => 12,
    };
    let cursor: i32 = match req.cursor {
        Some(c) => c,
        None => 1,
    };
    let c1: i32 = cursor - 1;
    assert(-2147483649 <= c1 <= 2147483647);
    assert(-2147483648 <= limit <= 2147483647);
    assert(c1 * limit <= 4611686018427387904 && c1 * limit >= -4611686018427387904) by (
    nonlinear_arith)
        requires
            -2147483649 <= c1 <= 2147483647,
            -2147483648 <= limit <= 2147483647,
    ;
    let offset: i64 = c1 as i64 * limit;
    SearchParams { pattern, limit, offset }
}

// ---------------------------------------------------------------------------
// Counting per feed
// ---------------------------------------------------------------------------
/// The condition of a per-feed count: starred for 0, unread for 1, all
/// articles otherwise.
pub open spec fn count_condition(filter: i64) -> Seq<char> {
    if filter == 0 {
        " is_starred = true "@
    } else if filter == 1 {
        " is_read = false "@
    } else {
        " 1 = 1 "@
    }
}

/// The query that counts current articles per feed for `req`.
pub open spec fn count_sql(req: &FeedsCountReq) -> Seq<char> {
    "SELECT\n            feed_id,\n            count(is_read) as unread_count\n          FROM article\n          WHERE "@
        + count_condition(req.filter)
        + " and is_current = true\n          GROUP BY feed_id"@
}

/// The query that counts current articles per feed for `req`.
pub fn count_query(req: &FeedsCountReq) -> (r: String)
    ensures
        r@ == count_sql(req),
{
    let cond = if req.filter == 0 {
        " is_starred = true "
    } else if req.filter == 1 {
        " is_read = false "
    } else {
        " 1 = 1 "
    };
    concat3(
        "SELECT\n            feed_id,\n            count(is_read) as unread_count\n          FROM article\n          WHERE ",
        cond,
        " and is_current = true\n          GROUP BY feed_id",
    )
}

/// Every filter other than starred (0) and unread (1) counts all current
/// articles: its condition is ` 1 = 1 `.
pub proof fn lemma_other_filters_count_all(req: &FeedsCountReq)
    requires
        req.filter != 0,
        req.filter != 1,
    ensures
        count_sql(req)
            == "SELECT\n            feed_id,\n            count(is_read) as unread_count\n          FROM article\n          WHERE "@
            + " 1 = 1 "@ + " and is_current = true\n          GROUP BY feed_id"@,
{
}

/// Starred (0) counts starred articles and unread (1) unread ones; the
/// three conditions differ.
pub proof fn lemma_count_filters_differ(a: &FeedsCountReq, b: &FeedsCountReq)
    requires
        a.filter == 0 || a.filter == 1,
        b.filter != a.filter,
    ensures
        count_sql(a) != count_sql(b),
{
    reveal_strlit(" is_starred = true ");
    reveal_strlit(" is_read = false ");
    reveal_strlit(" 1 = 1 ");
    let p = "SELECT\n            feed_id,\n            count(is_read) as unread_count\n          FROM article\n          WHERE "@;
    let ca = count_condition(a.filter);
    let cb = count_condition(b.filter);
    let q = " and is_current = true\n          GROUP BY feed_id"@;
    assert(ca[1] != cb[1] || ca[4] != cb[4]);
    let i: int = if ca[1] != cb[1] {
        p.len() + 1int
    } else {
        p.len() + 4int
    };
    assert(count_sql(a) == p + ca + q);
    assert(count_sql(b) == p + cb + q);
    assert((p + ca + q)[i] == ca[i - p.len()]);
    assert((p + cb + q)[i] == cb[i - p.len()]);
    assert(count_sql(a)[i] != count_sql(b)[i]);
}

// ---------------------------------------------------------------------------
// Reordering, moving, marking
// ---------------------------------------------------------------------------
/// The parent an entry is moved under: none (empty) when the request names
/// the entry itself as the folder, else the named folder.
pub fn sort_parent(req: &FeedSortReq) -> (r: String)
    ensures
        r@ == if req.folder_uuid@ == req.uuid@ {
            Seq::<char>::empty()
        } else {
            req.folder_uuid@
        },
{
    if req.folder_uuid == req.uuid {
        String::new()
    } else {
        req.folder_uuid.clone()
    }
}

/// The stored fetch interval: the requested number of seconds reinterpreted
/// as a signed 32-bit integer.
pub fn sync_interval_param(interval: u32) -> (r: i32)
    ensures
        r == if interval <= i32::MAX {
            interval as int
        } else {
            interval - 4294967296
        },
{
    if interval <= 2147483647 {
        interval as i32
    } else {
        (interval - 2147483648) as i32 - 2147483647 - 1
    }
}

/// Which feeds a "mark as read" request covers.
pub enum MarkReadScope {
    /// Every feed.
    AllFeeds,
    /// The feeds under the given entry of the tree.
    SubTree(String),
    /// None.
    Nothing,
}

/// The feeds `req` covers: all when `is_all` is set, else those under
/// `uuid` when given, else none.
pub fn mark_read_scope(req: &MarkAllReadReq) -> (r: MarkReadScope)
    ensures
        req.is_all == Some(true) ==> r is AllFeeds,
        req.is_all != Some(true) && req.uuid is Some ==> (r matches MarkReadScope::SubTree(id)
            && Some(id@) == opt_view(&req.uuid)),
        req.is_all != Some(true) && req.uuid is None ==> r is Nothing,
{
    if req.is_all == Some(true) {
        MarkReadScope::AllFeeds
    } else {
        match &req.uuid {
            Some(id) => MarkReadScope::SubTree(id.clone()),
            None => MarkReadScope::Nothing,
        }
    }
}

// ---------------------------------------------------------------------------
// The last successful fetch
// ---------------------------------------------------------------------------
/// `i` is the healthy log with the latest creation time, the last one of
/// several equally late.
pub open spec fn is_last_success(logs: Seq<FeedLog>, i: int) -> bool {
    &&& 0 <= i < logs.len()
    &&& logs[i].healthy
    &&& forall|j: int|
        0 <= j < logs.len() && #[trigger] logs[j].healthy ==> !logs[i].create_time.earlier(
            logs[j].create_time,
        )
    &&& forall|j: int|
        i < j < logs.len() && #[trigger] logs[j].healthy ==> logs[j].create_time.earlier(
            logs[i].create_time,
        )
}

/// The most recent healthy log, the last one of several equally recent;
/// `None` when no log is healthy.
pub fn get_last_success_feed_log(logs: &Vec<FeedLog>) -> (r: Option<usize>)
    ensures
        r matches Some(i) ==> is_last_success(logs@, i as int),
        r is None ==> forall|j: int| 0 <= j < logs.len() ==> !(#[trigger] logs@[j].healthy),
{
    let mut best: Option<usize> = None;
    let mut i: usize = 0;
    while i < logs.len()
        invariant
            0 <= i <= logs.len(),
            best matches Some(b) ==> is_last_success(logs@.take(i as int), b as int),
            best is None ==> forall|j: int| 0 <= j < i ==> !(#[trigger] logs@[j].healthy),
        decreases logs.len() - i,
    {
        let ghost prefix = logs@.take(i + 1);
        if logs[i].healthy {
            match best {
                None => {
                    best = Some(i);
                },
                Some(b) => {
                    if !logs[i].create_time.is_before(&logs[b].create_time) {
                        best = Some(i);
                    }
                },
            }
        }
        proof {
            let old_prefix = logs@.take(i as int);
            assert forall|j: int| 0 <= j < i implies old_prefix[j] == prefix[j] by {}
            if let Some(b) = best {
                let bb = b as int;
                assert forall|j: int|
                    0 <= j < prefix.len() && #[trigger] prefix[j].healthy implies !prefix[bb].create_time.earlier(
                    prefix[j].create_time) by {
                    if j < i {
                        assert(old_prefix[j] == prefix[j]);
                    }
                }
                assert forall|j: int|
                    bb < j < prefix.len() && #[trigger] prefix[j].healthy implies prefix[j].create_time.earlier(
                    prefix[bb].create_time) by {
                    if j < i {
                        assert(old_prefix[j] == prefix[j]);
                    }
                }
            }
        }
        i = i + 1;
    }
    assert(logs@.take(logs.len() as int) =~= logs@);
    best
}

// ---------------------------------------------------------------------------
// Whether a fetched article is new
// ---------------------------------------------------------------------------
/// A stored version of an article: its title, description and content.
pub struct StoredVersion {
    pub title: String,
    pub description: String,
    pub content: String,
}

/// `new`'s text occurs within `old`'s text, markup aside.
pub open spec fn text_within(old: Seq<char>, new: Seq<char>) -> bool {
    contains_seq(text_of_fragment(old), text_of_fragment(new))
}

/// A stored version already says what the article says: each of its title,
/// description and content holds the text of the article's trimmed field.
pub open spec fn covers(v: &StoredVersion, a: &Article) -> bool {
    &&& text_within(v.title@, trimmed(a.title@))
    &&& text_within(v.description@, trimmed(a.description@))
    &&& text_within(v.content@, trimmed(a.content@))
}

/// What to do with a fetched article.
pub struct InsertDecision {
    /// Store it as a new version.
    pub insert: bool,
    /// Mark the stored versions as no longer current.
    pub retire_previous: bool,
}

/// Whether `v` covers `a`.
pub fn version_covers(v: &StoredVersion, a: &Article) -> (b: bool)
    ensures
        b == covers(v, a),
{
    let t = trim(a.title.as_str());
    let d = trim(a.description.as_str());
    let c = trim(a.content.as_str());
    contains_only_text(v.title.as_str(), t.as_str()) && contains_only_text(
        v.description.as_str(),
        d.as_str(),
    ) && contains_only_text(v.content.as_str(), c.as_str())
}

/// A stored version covers an article only when the text of each of its
/// title, description and content contains the text of the article's
/// trimmed field; a changed title, description or content alone is enough
/// for it not to cover the article.
pub proof fn lemma_covers_needs_every_field(v: &StoredVersion, a: &Article)
    ensures
        covers(v, a) ==> contains_seq(
            text_of_fragment(v.title@),
            text_of_fragment(trimmed(a.title@)),
        ),
        covers(v, a) ==> contains_seq(
            text_of_fragment(v.description@),
            text_of_fragment(trimmed(a.description@)),
        ),
        covers(v, a) ==> contains_seq(
            text_of_fragment(v.content@),
            text_of_fragment(trimmed(a.content@)),
        ),
        contains_seq(text_of_fragment(v.title@), text_of_fragment(trimmed(a.title@)))
            && contains_seq(
            text_of_fragment(v.description@),
            text_of_fragment(trimmed(a.description@)),
        ) && contains_seq(text_of_fragment(v.content@), text_of_fragment(trimmed(a.content@)))
            ==> covers(v, a),
{
}

/// An article whose title text no stored version's title contains is stored
/// as a new version.
pub proof fn lemma_new_title_is_stored(existing: Seq<StoredVersion>, a: &Article)
    requires
        forall|k: int|
            0 <= k < existing.len() ==> !contains_seq(
                text_of_fragment((#[trigger] existing[k]).title@),
                text_of_fragment(trimmed(a.title@)),
            ),
    ensures
        !(exists|k: int| 0 <= k < existing.len() && covers(#[trigger] &existing[k], a)),
{
    assert forall|k: int| 0 <= k < existing.len() implies !covers(#[trigger] &existing[k], a) by {
        lemma_covers_needs_every_field(&existing[k], a);
    }
}

/// Decides on a fetched article given the stored versions of the same
/// item: it is stored unless some version covers it, and storing it retires
/// the versions already there.
pub fn insert_decision(existing: &Vec<StoredVersion>, a: &Article) -> (r: InsertDecision)
    ensures
        r.insert == !(exists|k: int| 0 <= k < existing.len() && covers(#[trigger] &existing@[k], a)),
        r.retire_previous == (existing.len() > 0 && r.insert),
        (forall|k: int|
            0 <= k < existing.len() ==> !contains_seq(
                text_of_fragment((#[trigger] existing@[k]).title@),
                text_of_fragment(trimmed(a.title@)),
            )) ==> r.insert,
{
    let mut covered = false;
    let mut i: usize = 0;
    while i < existing.len()
        invariant
            0 <= i <= existing.len(),
            covered == exists|k: int| 0 <= k < i && covers(#[trigger] &existing@[k], a),
        decreases existing.len() - i,
    {
        if version_covers(&existing[i], a) {
            covered = true;
        }
        i = i + 1;
    }
    proof {
        if forall|k: int|
            0 <= k < existing.len() ==> !contains_seq(
                text_of_fragment((#[trigger] existing@[k]).title@),
                text_of_fragment(trimmed(a.title@)),
            ) {
            lemma_new_title_is_stored(existing@, a);
        }
    }
    InsertDecision { insert: !covered, retire_previous: existing.len() > 0 && !covered }
}

/// Which of an item's stored versions are current once `d` is carried out:
/// retiring clears them all, storing adds a current version.
pub open spec fn current_after(current: Seq<bool>, d: InsertDecision) -> Seq<bool> {
    let kept = if d.retire_previous {
        Seq::new(current.len(), |i: int| false)
    } else {
        current
    };
    if d.insert {
        kept.push(true)
    } else {
        kept
    }
}

/// At most one of the versions is current.
pub open spec fn at_most_one_current(current: Seq<bool>) -> bool {
    forall|i: int, j: int| 0 <= i < j < current.len() ==> !(current[i] && current[j])
}

/// An item keeps at most one current version: carrying out what
/// `insert_decision` decides for the item's stored versions (whose current
/// flags are `current`) leaves at most one of them current.
pub proof fn lemma_one_current_version(current: Seq<bool>, d: InsertDecision)
    requires
        at_most_one_current(current),
        d.retire_previous == (current.len() > 0 && d.insert),
    ensures
        at_most_one_current(current_after(current, d)),
{
}

/// A fetched article is not stored again while a stored version holds
/// exactly its trimmed title, description and content.
pub proof fn lemma_unchanged_article_not_inserted(existing: Seq<StoredVersion>, a: &Article, k: int)
    requires
        0 <= k < existing.len(),
        existing[k].title@ == trimmed(a.title@),
        existing[k].description@ == trimmed(a.description@),
        existing[k].content@ == trimmed(a.content@),
    ensures
        exists|j: int| 0 <= j < existing.len() && covers(#[trigger] &existing[j], a),
{
    crate::html::lemma_contains_only_text_reflexive(trimmed(a.title@));
    crate::html::lemma_contains_only_text_reflexive(trimmed(a.description@));
    crate::html::lemma_contains_only_text_reflexive(trimmed(a.content@));
    assert(covers(&existing[k], a));
}

} // verus!
