//! The relay's decisions: what an upstream response head, an upstream body
//! and a failure each turn into, and the response sent back.

use crate::channel::{rss_accepts, rss_items, rss_metadata, rss_read, rss_xml, FeedChannel};
use crate::filter::{kept_entries, opt_view, terms_view};
use vstd::prelude::*;
use vstd::string::*;

verus! {

/// Name and version of this application, sent in the `Server` header.
pub const APP: &'static str = "feedfilter/0.1.0";

/// Content type of a relayed feed when the upstream names none.
pub const DEFAULT_CONTENT_TYPE: &'static str = "application/rss+xml; charset=UTF-8";

/// Content type of an error response, whose body is plain text.
pub const ERROR_CONTENT_TYPE: &'static str = "text/plain; charset=utf-8";

/// Status of a relayed feed.
pub const STATUS_OK: u16 = 200;

/// Status of every failure: the upstream could not be used.
pub const STATUS_BAD_GATEWAY: u16 = 502;

/// Lead text of a `Fetch` error's message.
pub const FETCH_PREFIX: &'static str = "Failed to fetch upstream feed: ";

/// Lead text of a `Read` error's message.
pub const READ_PREFIX: &'static str = "Failed to read upstream body: ";

/// Lead text of a `Parse` error's message.
pub const PARSE_PREFIX: &'static str = "Failed to parse upstream body: ";

/// Lead text of the cause of a `Fetch` error for a status outside 2xx.
pub const STATUS_PREFIX: &'static str = "upstream answered with HTTP status ";

/// Query parameters of the feed endpoint: the upstream feed's location and
/// the terms whose presence in a title removes an item.
pub struct FeedQuery {
    pub url: String,
    pub filter: Vec<String>,
}

impl FeedQuery {
    pub fn new(url: String, filter: Vec<String>) -> (r: FeedQuery)
        ensures
            r.url == url,
            r.filter == filter,
    {
        FeedQuery { url, filter }
    }
}

/// Why a feed could not be relayed; each kind carries a description of its
/// cause.
pub enum FeedError {
    /// The upstream could not be reached, or answered with a status outside
    /// the 2xx range.
    Fetch(String),
    /// The upstream's body could not be read to its end.
    Read(String),
    /// The upstream's body is not an RSS channel.
    Parse(String),
}

/// A response of the feed endpoint.
pub struct FeedResponse {
    pub status: u16,
    pub content_type: String,
    /// The `Server` header, where one is sent.
    pub server: Option<String>,
    pub body: String,
}

/// What the upstream answered before its body: status code, the reason
/// phrase that goes with it, and the `Content-Type` header if there was one.
pub struct UpstreamHead {
    pub status: u16,
    pub status_text: String,
    pub content_type: Option<String>,
}

/// The text that leads the message of an error of this kind.
pub open spec fn error_prefix(e: FeedError) -> Seq<char> {
    match e {
        FeedError::Fetch(_) => FETCH_PREFIX@,
        FeedError::Read(_) => READ_PREFIX@,
        FeedError::Parse(_) => PARSE_PREFIX@,
    }
}

/// The cause an error carries.
pub open spec fn error_cause(e: FeedError) -> Seq<char> {
    match e {
        FeedError::Fetch(c) => c@,
        FeedError::Read(c) => c@,
        FeedError::Parse(c) => c@,
    }
}

/// The content type sent for a feed whose upstream named `upstream`.
pub open spec fn chosen_content_type(upstream: Option<Seq<char>>) -> Seq<char> {
    match upstream {
        Option::Some(ct) => ct,
        Option::None => DEFAULT_CONTENT_TYPE@,
    }
}

/// A status in the 2xx range.
pub open spec fn is_success(status: u16) -> bool {
    200 <= status < 300
}

impl FeedError {
    /// The human-readable message: the kind's lead text, then the cause.
    pub fn message(&self) -> (r: String)
        ensures
            r@ == error_prefix(*self) + error_cause(*self),
    {
        match self {
            FeedError::Fetch(c) => String::from_str(FETCH_PREFIX).concat(c.as_str()),
            FeedError::Read(c) => String::from_str(READ_PREFIX).concat(c.as_str()),
            FeedError::Parse(c) => String::from_str(PARSE_PREFIX).concat(c.as_str()),
        }
    }

    /// The HTTP status of every kind: 502 Bad Gateway.
    pub fn status(&self) -> (r: u16)
        ensures
            r == STATUS_BAD_GATEWAY,
    {
        match self {
            FeedError::Fetch(_) => STATUS_BAD_GATEWAY,
            FeedError::Read(_) => STATUS_BAD_GATEWAY,
            FeedError::Parse(_) => STATUS_BAD_GATEWAY,
        }
    }

    /// The response for this error: its status, and its message as a plain
    /// text body.
    pub fn into_response(self) -> (r: FeedResponse)
        ensures
            r.status == STATUS_BAD_GATEWAY,
            r.content_type@ == ERROR_CONTENT_TYPE@,
            r.server.is_none(),
            r.body@ == error_prefix(self) + error_cause(self),
    {
        let body = self.message();
        FeedResponse {
            status: self.status(),
            content_type: String::from_str(ERROR_CONTENT_TYPE),
            server: Option::None,
            body,
        }
    }
}

/// Whether `status` is in the 2xx range.
pub fn status_is_success(status: u16) -> (r: bool)
    ensures
        r == is_success(status),
{
    200 <= status && status < 300
}

/// The upstream's content type, or the default RSS type where it named none.
pub fn content_type_or_default(upstream: Option<String>) -> (r: String)
    ensures
        r@ == chosen_content_type(opt_view(upstream)),
{
    match upstream {
        Option::Some(ct) => ct,
        Option::None => String::from_str(DEFAULT_CONTENT_TYPE),
    }
}

/// `xml` is the channel read from `body`, with its metadata kept and only
/// the items that survive `terms` left, written back as RSS XML.
pub open spec fn is_filtered_feed(xml: Seq<char>, body: Seq<u8>, terms: Seq<Seq<char>>) -> bool {
    exists|c: rss::Channel|
        {
            &&& xml == #[trigger] rss_xml(c)
            &&& rss_items(c) == kept_entries(rss_items(rss_read(body)), terms)
            &&& rss_metadata(c) == rss_metadata(rss_read(body))
        }
}

/// Decides on the upstream's answer before its body. A transport failure
/// (`Err`, with its description) or a status outside 2xx is a `Fetch`
/// error; otherwise the content type to send back is returned.
pub fn accept_head(head: Result<UpstreamHead, String>) -> (r: Result<String, FeedError>)
    ensures
        match head {
            Result::Err(cause) => r == Result::<String, FeedError>::Err(FeedError::Fetch(cause)),
            Result::Ok(h) => if is_success(h.status) {
                r matches Result::Ok(ct) && ct@ == chosen_content_type(opt_view(h.content_type))
            } else {
                r matches Result::Err(FeedError::Fetch(c)) && c@ == STATUS_PREFIX@ + h.status_text@
            },
        },
{
    match head {
        Result::Err(cause) => Result::Err(FeedError::Fetch(cause)),
        Result::Ok(h) => {
            if status_is_success(h.status) {
                Result::Ok(content_type_or_default(h.content_type))
            } else {
                let cause = String::from_str(STATUS_PREFIX).concat(h.status_text.as_str());
                Result::Err(FeedError::Fetch(cause))
            }
        },
    }
}

/// Parses the upstream body as RSS, drops the items whose titles contain
/// one of `terms`, and answers with the channel written back as XML under
/// `content_type`. A body that is not RSS is a `Parse` error.
pub fn render_feed(body: &[u8], content_type: String, terms: &Vec<String>) -> (r: Result<
    FeedResponse,
    FeedError,
>)
    ensures
        r.is_ok() == rss_accepts(body@),
        r matches Result::Ok(resp) ==> {
            &&& resp.status == STATUS_OK
            &&& resp.content_type == content_type
            &&& resp.server matches Option::Some(s) && s@ == APP@
            &&& is_filtered_feed(resp.body@, body@, terms_view(terms@))
        },
        r matches Result::Err(e) ==> e is Parse,
{
    match FeedChannel::parse(body) {
        Result::Ok(mut channel) => {
            channel.retain_unblocked(terms);
            Result::Ok(
                FeedResponse {
                    status: STATUS_OK,
                    content_type,
                    server: Option::Some(String::from_str(APP)),
                    body: channel.into_xml(),
                },
            )
        },
        Result::Err(cause) => Result::Err(FeedError::Parse(cause)),
    }
}

/// Decides on the upstream's body: a failure while reading it (`Err`, with
/// its description) is a `Read` error; bytes read in full are rendered.
pub fn accept_body(body: Result<Vec<u8>, String>, content_type: String, terms: &Vec<String>) -> (r:
    Result<FeedResponse, FeedError>)
    ensures
        match body {
            Result::Err(cause) => r == Result::<FeedResponse, FeedError>::Err(
                FeedError::Read(cause),
            ),
            Result::Ok(bytes) => {
                &&& r.is_ok() == rss_accepts(bytes@)
                &&& r matches Result::Ok(resp) ==> {
                    &&& resp.status == STATUS_OK
                    &&& resp.content_type == content_type
                    &&& resp.server matches Option::Some(s) && s@ == APP@
                    &&& is_filtered_feed(resp.body@, bytes@, terms_view(terms@))
                }
                &&& r matches Result::Err(e) ==> e is Parse
            },
        },
{
    match body {
        Result::Err(cause) => Result::Err(FeedError::Read(cause)),
        Result::Ok(bytes) => render_feed(bytes.as_slice(), content_type, terms),
    }
}

/// The response for an outcome: the feed as it is, or the error's response.
pub fn respond(outcome: Result<FeedResponse, FeedError>) -> (r: FeedResponse)
    ensures
        match outcome {
            Result::Ok(resp) => r == resp,
            Result::Err(e) => {
                &&& r.status == STATUS_BAD_GATEWAY
                &&& r.content_type@ == ERROR_CONTENT_TYPE@
                &&& r.server.is_none()
                &&& r.body@ == error_prefix(e) + error_cause(e)
            },
        },
{
    match outcome {
        Result::Ok(resp) => resp,
        Result::Err(e) => e.into_response(),
    }
}

} // verus!
