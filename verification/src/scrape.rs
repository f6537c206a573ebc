//! Fetch routing: which hosts are reached through the proxy, when a direct
//! fetch falls back to the proxy, and how a response status is read.
use vstd::prelude::*;

use crate::model::{opt_view, ProxyConfig};
use crate::set::StringSet;
use crate::text::{int_decimal, i64_to_decimal};

verus! {

/// What `url::Url::parse` makes of `s`: `None` if it rejects it, otherwise
/// the host part (`Url::host_str`) if there is one.
pub uninterp spec fn url_host(s: Seq<char>) -> Option<Option<Seq<char>>>;

#[verifier::external_type_specification]
#[verifier::external_body]
pub struct ExUrlParseError(url::ParseError);

/// Parses `s` with `url::Url::parse` and reads `host_str`; the contract
/// claims success exactly where the named outcome exists, with that host.
#[verifier::external_body]
fn parse_url_host(s: &str) -> (r: Result<Option<String>, url::ParseError>)
    ensures
        r is Ok <==> url_host(s@) is Some,
        r matches Ok(h) ==> url_host(s@) == Some(opt_view(&h)),
{
    url::Url::parse(s).map(|u| u.host_str().map(|h| h.to_string()))
}

/// How to fetch a page.
pub struct RequestPlan {
    /// The host of the address, if it has one.
    pub host: Option<String>,
    /// The first attempt goes through the proxy.
    pub use_proxy: bool,
    /// After a failed first attempt, try again through the proxy.
    pub retry_with_proxy: bool,
}

/// Why an address cannot be fetched.
#[derive(PartialEq, Eq, Structural, Clone, Copy, Debug)]
pub enum RequestError {
    /// The address is not a valid URL.
    InvalidUrl,
}

/// The first attempt uses the proxy when one is configured and the host is
/// known to need it.
pub open spec fn plan_uses_proxy(
    blocked: Set<Seq<char>>,
    has_proxy: bool,
    host: Option<Seq<char>>,
) -> bool {
    has_proxy && match host {
        Some(h) => blocked.contains(h),
        None => false,
    }
}

/// Plans the fetch of `url`: a host that only answered through the proxy is
/// reached through it; any other fetch is tried directly and, when a proxy is
/// configured, retried through it.
pub fn plan_request(blocked: &StringSet, has_proxy: bool, url: &str) -> (r: Result<
    RequestPlan,
    RequestError,
>)
    ensures
        r is Err <==> url_host(url@) is None,
        r matches Ok(p) ==> {
            &&& url_host(url@) == Some(opt_view(&p.host))
            &&& p.use_proxy == plan_uses_proxy(blocked.view(), has_proxy, opt_view(&p.host))
            &&& p.retry_with_proxy == (has_proxy && !p.use_proxy)
        },
{
    match parse_url_host(url) {
        Err(_) => Err(RequestError::InvalidUrl),
        Ok(host) => {
            let in_set = match &host {
                Some(h) => blocked.contains(h.as_str()),
                None => false,
            };
            let use_proxy = has_proxy && in_set;
            Ok(RequestPlan { host, use_proxy, retry_with_proxy: has_proxy && !use_proxy })
        },
    }
}

/// Notes that a fetch succeeded only through the proxy: its host, if any,
/// is reached through the proxy from now on.
pub fn record_proxy_success(blocked: &mut StringSet, plan: &RequestPlan)
    requires
        old(blocked).wf(),
    ensures
        final(blocked).wf(),
        final(blocked).view() == match opt_view(&plan.host) {
            Some(h) => old(blocked).view().insert(h),
            None => old(blocked).view(),
        },
{
    if let Some(h) = &plan.host {
        blocked.insert(h.as_str());
    }
}

/// Once a host has answered through the proxy, later fetches of any address
/// on that host go through the proxy first, when a proxy is configured.
pub proof fn lemma_recorded_host_uses_proxy(blocked: Set<Seq<char>>, h: Seq<char>, url: Seq<char>)
    requires
        url_host(url) == Some(Some(h)),
    ensures
        plan_uses_proxy(blocked.insert(h), true, Some(h)),
        !plan_uses_proxy(blocked.insert(h), false, Some(h)),
{
}

/// The proxy address a client is given: `http://`, the proxy's address, `:`
/// and its port in decimal.
pub open spec fn proxy_scheme_of(ip: Seq<char>, port: int) -> Seq<char> {
    seq!['h', 't', 't', 'p', ':', '/', '/'] + ip + seq![':'] + int_decimal(port)
}

/// The proxy address for `proxy`.
pub fn proxy_scheme(proxy: &ProxyConfig) -> (r: String)
    ensures
        r@ == proxy_scheme_of(proxy.ip@, proxy.port as int),
{
    let mut r = String::new();
    crate::text::push_char(&mut r, 'h');
    crate::text::push_char(&mut r, 't');
    crate::text::push_char(&mut r, 't');
    crate::text::push_char(&mut r, 'p');
    crate::text::push_char(&mut r, ':');
    crate::text::push_char(&mut r, '/');
    crate::text::push_char(&mut r, '/');
    r.append(proxy.ip.as_str());
    crate::text::push_char(&mut r, ':');
    let port = i64_to_decimal(proxy.port as i64);
    r.append(port.as_str());
    assert(r@ =~= proxy_scheme_of(proxy.ip@, proxy.port as int));
    r
}

/// What to do with the response to a feed fetch.
#[derive(PartialEq, Eq, Structural, Clone, Copy, Debug)]
pub enum FeedResponse {
    /// 200: read the body as a feed.
    Parse,
    /// 404: there is no feed at the address.
    NotFound,
    /// Any other status: report it.
    Unexpected,
}

/// How a feed fetch answered with `status` is handled.
pub fn classify_feed_status(status: u16) -> (r: FeedResponse)
    ensures
        r == if status == 200 {
            FeedResponse::Parse
        } else if status == 404 {
            FeedResponse::NotFound
        } else {
            FeedResponse::Unexpected
        },
{
    if status == 200 {
        FeedResponse::Parse
    } else if status == 404 {
        FeedResponse::NotFound
    } else {
        FeedResponse::Unexpected
    }
}

/// Whether a page fetch answered with `status` has a body to read.
pub fn page_status_ok(status: u16) -> (b: bool)
    ensures
        b == (status == 200),
{
    status == 200
}

/// The content type an attachment is served with: the response's, or
/// `text/html` when it gave none.
pub fn attachment_content_type(header: &Option<String>) -> (r: String)
    ensures
        r@ == match opt_view(header) {
            Some(h) => h,
            None => "text/html"@,
        },
{
    match header {
        Some(h) => h.clone(),
        None => crate::text::owned("text/html"),
    }
}

/// The message for a feed address that answered 404.
pub fn feed_not_found_message(url: &str) -> (r: String)
    ensures
        r@ == "Could not find a feed at the location, "@ + url@,
{
    crate::text::concat2("Could not find a feed at the location, ", url)
}

} // verus!
