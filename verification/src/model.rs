//! The records the reader keeps: feeds and folders, articles, fetch logs,
//! cached attachments, and the proxy and database settings.
use vstd::prelude::*;

use crate::time::Timestamp;

verus! {

/// Whether an entry of the subscription tree is a feed or a folder.
#[derive(PartialEq, Eq, Structural, Clone, Copy, Debug)]
pub enum FeedTypeMark {
    Feed,
    Folder,
}

/// A name that is neither `channel` nor `folder`.
#[derive(PartialEq, Eq, Structural, Clone, Copy, Debug)]
pub enum FeedTypeParseError {
    VariantNotFound,
}

/// The stored name of a kind: `channel` for a feed, `folder` for a folder.
pub open spec fn feed_type_name(m: FeedTypeMark) -> Seq<char> {
    match m {
        FeedTypeMark::Feed => seq!['c', 'h', 'a', 'n', 'n', 'e', 'l'],
        FeedTypeMark::Folder => seq!['f', 'o', 'l', 'd', 'e', 'r'],
    }
}

/// The kind a stored name denotes, if any.
pub open spec fn feed_type_of_name(s: Seq<char>) -> Option<FeedTypeMark> {
    if s == feed_type_name(FeedTypeMark::Feed) {
        Some(FeedTypeMark::Feed)
    } else if s == feed_type_name(FeedTypeMark::Folder) {
        Some(FeedTypeMark::Folder)
    } else {
        None
    }
}

impl FeedTypeMark {
    /// The stored name of this kind.
    pub fn as_ref(&self) -> (r: String)
        ensures
            r@ == feed_type_name(*self),
    {
        let mut r = String::new();
        match self {
            FeedTypeMark::Feed => {
                crate::text::push_char(&mut r, 'c');
                crate::text::push_char(&mut r, 'h');
                crate::text::push_char(&mut r, 'a');
                crate::text::push_char(&mut r, 'n');
                crate::text::push_char(&mut r, 'n');
                crate::text::push_char(&mut r, 'e');
                crate::text::push_char(&mut r, 'l');
            },
            FeedTypeMark::Folder => {
                crate::text::push_char(&mut r, 'f');
                crate::text::push_char(&mut r, 'o');
                crate::text::push_char(&mut r, 'l');
                crate::text::push_char(&mut r, 'd');
                crate::text::push_char(&mut r, 'e');
                crate::text::push_char(&mut r, 'r');
            },
        }
        assert(r@ =~= feed_type_name(*self));
        r
    }

    /// The name written when the kind is serialised; the stored name.
    pub fn serialize(&self) -> (r: String)
        ensures
            r@ == feed_type_name(*self),
    {
        self.as_ref()
    }

    /// Reads a stored name: exactly `channel` or `folder`, case included.
    pub fn from_str(s: &str) -> (r: Result<FeedTypeMark, FeedTypeParseError>)
        ensures
            match feed_type_of_name(s@) {
                Some(m) => r == Ok::<FeedTypeMark, FeedTypeParseError>(m),
                None => r == Err::<FeedTypeMark, FeedTypeParseError>(
                    FeedTypeParseError::VariantNotFound,
                ),
            },
    {
        let channel = FeedTypeMark::Feed.as_ref();
        let folder = FeedTypeMark::Folder.as_ref();
        let given = crate::text::owned(s);
        if given == channel {
            Ok(FeedTypeMark::Feed)
        } else if given == folder {
            Ok(FeedTypeMark::Folder)
        } else {
            Err(FeedTypeParseError::VariantNotFound)
        }
    }
}

/// Reading back the stored name of a kind gives that kind.
pub proof fn lemma_feed_type_name_round_trip(m: FeedTypeMark)
    ensures
        feed_type_of_name(feed_type_name(m)) == Some(m),
{
    let c = feed_type_name(FeedTypeMark::Feed);
    let f = feed_type_name(FeedTypeMark::Folder);
    assert(c[0] != f[0]);
}

/// A proxy to reach blocked hosts through.
#[derive(Clone, Debug)]
pub struct ProxyConfig {
    pub ip: String,
    pub port: i32,
    pub username: Option<String>,
    pub password: Option<String>,
}

impl ProxyConfig {
    /// The same proxy without credentials.
    pub fn without_credentials(&self) -> (r: ProxyConfig)
        ensures
            r.ip@ == self.ip@,
            r.port == self.port,
            r.username is None,
            r.password is None,
    {
        ProxyConfig { ip: self.ip.clone(), port: self.port, username: None, password: None }
    }

    /// A copy of this configuration.
    pub fn duplicate(&self) -> (r: ProxyConfig)
        ensures
            r.ip@ == self.ip@,
            r.port == self.port,
            opt_view(&r.username) == opt_view(&self.username),
            opt_view(&r.password) == opt_view(&self.password),
    {
        ProxyConfig {
            ip: self.ip.clone(),
            port: self.port,
            username: copy_opt(&self.username),
            password: copy_opt(&self.password),
        }
    }
}

/// The view of an optional string.
pub open spec fn opt_view(o: &Option<String>) -> Option<Seq<char>> {
    match o {
        Some(s) => Some(s@),
        None => None,
    }
}

/// The views of a sequence of optional strings.
pub open spec fn opt_views(s: Seq<Option<String>>) -> Seq<Option<Seq<char>>> {
    s.map_values(|o: Option<String>| opt_view(&o))
}

/// A copy of an optional string.
pub fn copy_opt(o: &Option<String>) -> (r: Option<String>)
    ensures
        opt_view(&r) == opt_view(o),
{
    match o {
        Some(s) => Some(s.clone()),
        None => None,
    }
}

/// How to reach the database.
pub struct PostgresConfig {
    user: String,
    pass: String,
    dbname: String,
    host: String,
    port: u16,
}

impl PostgresConfig {
    pub fn new(user: String, pass: String, dbname: String, host: String, port: u16) -> (r:
        PostgresConfig)
        ensures
            r.spec_user() == user@,
            r.spec_pass() == pass@,
            r.spec_dbname() == dbname@,
            r.spec_host() == host@,
            r.spec_port() == port,
    {
        PostgresConfig { user, pass, dbname, host, port }
    }

    pub closed spec fn spec_user(&self) -> Seq<char> {
        self.user@
    }

    pub closed spec fn spec_pass(&self) -> Seq<char> {
        self.pass@
    }

    pub closed spec fn spec_dbname(&self) -> Seq<char> {
        self.dbname@
    }

    pub closed spec fn spec_host(&self) -> Seq<char> {
        self.host@
    }

    pub closed spec fn spec_port(&self) -> u16 {
        self.port
    }

    pub fn user(&self) -> (r: &str)
        ensures
            r@ == self.spec_user(),
    {
        self.user.as_str()
    }

    pub fn pass(&self) -> (r: &str)
        ensures
            r@ == self.spec_pass(),
    {
        self.pass.as_str()
    }

    pub fn dbname(&self) -> (r: &str)
        ensures
            r@ == self.spec_dbname(),
    {
        self.dbname.as_str()
    }

    pub fn host(&self) -> (r: &str)
        ensures
            r@ == self.spec_host(),
    {
        self.host.as_str()
    }

    pub fn port(&self) -> (r: u16)
        ensures
            r == self.spec_port(),
    {
        self.port
    }
}

/// A feed (channel) or folder of the subscription tree.
pub struct Feed {
    pub id: String,
    pub parent_id: Option<String>,
    pub title: String,
    pub link: String,
    pub item_type: FeedTypeMark,
    pub logo: String,
    pub feed_url: String,
    pub description: String,
    pub create_time: Timestamp,
    pub update_time: Timestamp,
    pub sort: i32,
    pub sync_interval_sec: i32,
}

impl Feed {
    /// Whether this entry is a feed rather than a folder.
    pub fn is_channel(&self) -> (b: bool)
        ensures
            b == (self.item_type == FeedTypeMark::Feed),
    {
        self.item_type == FeedTypeMark::Feed
    }
}

/// The outcome of one fetch of a feed.
pub struct FeedLog {
    pub feed_id: String,
    pub last_pub_date: Option<Timestamp>,
    pub healthy: bool,
    pub log: String,
    pub create_time: Timestamp,
    pub update_time: Timestamp,
}

impl FeedLog {
    /// A healthy, empty log entry written at `now`.
    pub fn default_at(now: Timestamp) -> (r: FeedLog)
        ensures
            r.feed_id@ == Seq::<char>::empty(),
            r.last_pub_date is None,
            r.healthy,
            r.log@ == Seq::<char>::empty(),
            r.create_time == now,
            r.update_time == now,
    {
        FeedLog {
            feed_id: String::new(),
            last_pub_date: None,
            healthy: true,
            log: String::new(),
            create_time: now,
            update_time: now,
        }
    }
}

/// The seed an article's identity is hashed from: the `Debug` form of its
/// publisher id, the feed address and the title, separated by spaces.
pub open spec fn article_id_seed(pub_id: Option<Seq<char>>, feed_url: Seq<char>, title: Seq<
    char,
>) -> Seq<char> {
    crate::digest::option_debug(pub_id) + seq![' '] + feed_url + seq![' '] + title
}

/// The identity of an article: the MD5 hexadecimal of its seed.
pub open spec fn article_id(pub_id: Option<Seq<char>>, feed_url: Seq<char>, title: Seq<char>) -> Seq<
    char,
> {
    crate::digest::md5_hex(article_id_seed(pub_id, feed_url, title))
}

/// One item of a feed, as stored and shown.
pub struct Article {
    pub id: String,
    pub pub_id: Option<String>,
    pub title: String,
    pub link: String,
    pub feed_id: String,
    pub feed_title: String,
    pub description: String,
    pub author: String,
    pub pub_time: Timestamp,
    pub content: String,
    pub cached_content: Option<String>,
    pub create_time: Timestamp,
    pub update_time: Timestamp,
    pub is_read: bool,
    pub is_starred: bool,
}

impl Article {
    /// The article's identity.
    pub open spec fn spec_id(&self) -> Seq<char> {
        self.id@
    }

    /// A new article; its identity is derived from its publisher id, the
    /// address of its feed and its title.
    pub fn new(
        pub_id: Option<String>,
        title: String,
        link: String,
        feed_id: String,
        feed_title: String,
        description: String,
        author: String,
        pub_time: Timestamp,
        content: String,
        cached_content: Option<String>,
        create_time: Timestamp,
        update_time: Timestamp,
        is_read: bool,
        is_starred: bool,
        feed_url: &str,
    ) -> (r: Article)
        ensures
            r.spec_id() == article_id(opt_view(&pub_id), feed_url@, title@),
            r.spec_id().len() == 32,
            r.pub_id == pub_id,
            r.title == title,
            r.link == link,
            r.feed_id == feed_id,
            r.feed_title == feed_title,
            r.description == description,
            r.author == author,
            r.pub_time == pub_time,
            r.content == content,
            r.cached_content == cached_content,
            r.create_time == create_time,
            r.update_time == update_time,
            r.is_read == is_read,
            r.is_starred == is_starred,
    {
        let mut seed = crate::digest::option_debug_of(&pub_id);
        seed.append(" ");
        seed.append(feed_url);
        seed.append(" ");
        seed.append(title.as_str());
        proof {
            reveal_strlit(" ");
            assert(seed@ =~= article_id_seed(opt_view(&pub_id), feed_url@, title@));
        }
        let id = crate::digest::md5_hex_of(seed.as_str());
        Article {
            id,
            pub_id,
            title,
            link,
            feed_id,
            description,
            author,
            pub_time,
            content,
            cached_content,
            create_time,
            update_time,
            is_read,
            is_starred,
            feed_title,
        }
    }

    /// An article read back from the store, with its stored identity.
    pub fn new_from_db(
        id: String,
        pub_id: Option<String>,
        title: String,
        link: String,
        feed_id: String,
        feed_title: String,
        description: String,
        author: String,
        pub_time: Timestamp,
        content: String,
        cached_content: Option<String>,
        create_time: Timestamp,
        update_time: Timestamp,
        is_read: bool,
        is_starred: bool,
    ) -> (r: Article)
        ensures
            r.spec_id() == id@,
            r.pub_id == pub_id,
            r.title == title,
            r.link == link,
            r.feed_id == feed_id,
            r.feed_title == feed_title,
            r.description == description,
            r.author == author,
            r.pub_time == pub_time,
            r.content == content,
            r.cached_content == cached_content,
            r.create_time == create_time,
            r.update_time == update_time,
            r.is_read == is_read,
            r.is_starred == is_starred,
    {
        Article {
            id,
            pub_id,
            title,
            link,
            feed_id,
            feed_title,
            description,
            author,
            pub_time,
            content,
            cached_content,
            create_time,
            update_time,
            is_read,
            is_starred,
        }
    }

    /// The article's identity.
    pub fn get_id(&self) -> (r: &str)
        ensures
            r@ == self.spec_id(),
    {
        self.id.as_str()
    }
}

/// An attachment kept on disk under `id`.
pub struct WebCache {
    pub id: String,
    pub url: String,
    pub content_type: String,
}

/// What a readability extraction of a page yields.
pub struct PageScraperResult {
    pub title: String,
    pub content: String,
    pub author: String,
    pub date_published: String,
    pub domain: String,
    pub url: String,
    pub excerpt: String,
}

impl PageScraperResult {
    /// All fields empty.
    pub fn empty() -> (r: PageScraperResult)
        ensures
            r.title@.len() == 0,
            r.content@.len() == 0,
            r.author@.len() == 0,
            r.date_published@.len() == 0,
            r.domain@.len() == 0,
            r.url@.len() == 0,
            r.excerpt@.len() == 0,
    {
        PageScraperResult {
            title: String::new(),
            content: String::new(),
            author: String::new(),
            date_published: String::new(),
            domain: String::new(),
            url: String::new(),
            excerpt: String::new(),
        }
    }
}

} // verus!
