//! What a client needs around a call: a base for its addresses, a fresh
//! request to start from, and a way to tell whether a response is of the
//! content type that was expected.

use crate::mime::{parsed, MimeType, MimeTypeView};
use vstd::prelude::*;

verus! {

/// `url::Url`: an absolute address, carried as it is.
#[verifier::external_type_specification]
#[verifier::external_body]
pub struct ExUrl(url::Url);

/// `url::ParseError`: why a string is no address.
#[verifier::external_type_specification]
#[verifier::external_body]
pub struct ExUrlParseError(url::ParseError);

/// `http::HeaderValue`: the value of a header, carried as it is.
#[verifier::external_type_specification]
#[verifier::external_body]
pub struct ExHeaderValue(http::HeaderValue);

/// `http::request::Builder`: a request in the making, carried as it is.
#[verifier::external_type_specification]
#[verifier::external_body]
pub struct ExRequestBuilder(http::request::Builder);

/// What `Url::parse` makes of `raw`.
pub uninterp spec fn url_parsed(raw: Seq<char>) -> Result<url::Url, url::ParseError>;

/// What `Url::join` makes of `raw` with `base` to start from.
pub uninterp spec fn url_joined(base: url::Url, raw: Seq<char>) -> Result<
    url::Url,
    url::ParseError,
>;

/// The text that `HeaderValue::to_str` finds in `value`; `None` where the
/// value holds a byte that is no visible ASCII character.
pub uninterp spec fn header_text(value: http::HeaderValue) -> Option<Seq<char>>;

/// `Url::parse`: `raw` as an absolute address.
#[verifier::external_body]
fn url_parse(raw: &str) -> (r: Result<url::Url, url::ParseError>)
    ensures
        r == url_parsed(raw@),
{
    url::Url::parse(raw)
}

/// `Url::join`: `raw` as an address, relative to `base` unless it is
/// absolute itself.
#[verifier::external_body]
fn url_join(base: &url::Url, raw: &str) -> (r: Result<url::Url, url::ParseError>)
    ensures
        r == url_joined(*base, raw@),
{
    base.join(raw)
}

/// `HeaderValue::to_str`: the value as text, if it is text.
#[verifier::external_body]
fn header_to_str(value: &http::HeaderValue) -> (r: Option<&str>)
    ensures
        match r {
            Some(text) => header_text(*value) == Some(text@),
            None => header_text(*value) is None,
        },
{
    value.to_str().ok()
}

/// The request line that `builder` holds so far: the method as
/// `Method::as_str` gives it, the address as `Uri` prints it and the version
/// as `Version` prints it, in this order. Empty where the builder holds an
/// error.
pub uninterp spec fn builder_line(builder: http::request::Builder) -> Seq<Seq<char>>;

/// The headers that `builder` holds so far: under each name, in lower case,
/// the values that were added under it, in the order in which they were
/// added. Empty where the builder holds an error.
pub uninterp spec fn builder_headers(builder: http::request::Builder) -> Map<
    Seq<char>,
    Seq<Seq<u8>>,
>;

/// No headers at all.
pub open spec fn no_headers() -> Map<Seq<char>, Seq<Seq<u8>>> {
    Map::empty()
}

/// `Builder::new` gives a request that nothing has been set on yet: the
/// method is `GET`, the address `/`, the version HTTP/1.1, and there are no
/// headers.
pub assume_specification[ http::request::Builder::new ]() -> (r: http::request::Builder)
    ensures
        builder_line(r) == seq!["GET"@, "/"@, "HTTP/1.1"@],
        builder_headers(r) == no_headers(),
;

/// A service that is reached under one base address.
pub trait HttpService {
    /// The address that the paths of the service are relative to.
    fn get_base_url(&self) -> &str;
}

/// Where a request starts from.
pub trait RequestInitializer {
    /// A request with whatever every request of the client is to carry.
    fn initialize(&self) -> http::request::Builder;
}

/// How the content type of a response is held against the expected one.
pub trait MimeMatcher {
    /// Tells whether the header `actual` is of the content type `expect`.
    fn matches(&self, expect: &MimeType, actual: &http::HeaderValue) -> bool;
}

/// Starts from a request that nothing has been set on.
#[derive(Debug, Clone, Copy)]
pub struct DefaultInitializer;

/// Takes a header for the expected content type when it reads as a content
/// type of the same base type.
#[derive(Debug, Clone, Copy)]
pub struct DefaultMatcher;

/// Whether a header that reads as `text`, if it is text at all, is of the
/// content type `expect`.
pub open spec fn same_content_type(expect: MimeTypeView, text: Option<Seq<char>>) -> bool {
    match text {
        None => false,
        Some(text) => match parsed(text) {
            Ok(actual) => actual.base == expect.base,
            Err(_) => false,
        },
    }
}

/// A request that nothing has been set on: `GET /` over HTTP/1.1, without
/// headers.
pub open spec fn is_fresh(builder: http::request::Builder) -> bool {
    &&& builder_line(builder) == seq!["GET"@, "/"@, "HTTP/1.1"@]
    &&& builder_headers(builder) == no_headers()
}

impl RequestInitializer for DefaultInitializer {
    /// A request that nothing has been set on.
    fn initialize(&self) -> (r: http::request::Builder)
        ensures
            is_fresh(r),
    {
        http::request::Builder::new()
    }
}

impl MimeMatcher for DefaultMatcher {
    fn matches(&self, expect: &MimeType, actual: &http::HeaderValue) -> (r: bool)
        ensures
            r == same_content_type(expect@, header_text(*actual)),
    {
        match header_to_str(actual) {
            Some(text) => match MimeType::parse(text) {
                Ok(found) => found == *expect,
                Err(_) => false,
            },
            None => false,
        }
    }
}

/// The helper of a client.
#[derive(Clone)]
pub struct Helper<I: RequestInitializer = DefaultInitializer, M: MimeMatcher = DefaultMatcher> {
    base_url: Option<url::Url>,
    request_initializer: I,
    mime_matcher: M,
}

impl Helper<DefaultInitializer, DefaultMatcher> {
    /// A helper without a base address, with the default initializer and the
    /// default matcher.
    pub fn new() -> (h: Self)
        ensures
            h.base() is None,
    {
        Helper {
            base_url: None,
            request_initializer: DefaultInitializer,
            mime_matcher: DefaultMatcher,
        }
    }
}

impl Default for Helper<DefaultInitializer, DefaultMatcher> {
    /// The helper that `new` gives.
    fn default() -> (h: Self)
        ensures
            h.base() is None,
    {
        Helper::new()
    }
}

impl<I: RequestInitializer, M: MimeMatcher> Helper<I, M> {
    /// The base address, if one is bound.
    pub closed spec fn base(&self) -> Option<url::Url> {
        self.base_url
    }

    /// The initializer that is bound.
    pub closed spec fn initializer(&self) -> I {
        self.request_initializer
    }

    /// The matcher that is bound.
    pub closed spec fn matcher(&self) -> M {
        self.mime_matcher
    }

    /// Binds a base address; the rest stays.
    pub fn with_base_url(self, base_url: url::Url) -> (h: Helper<I, M>)
        ensures
            h.base() == Some(base_url),
            h.initializer() == self.initializer(),
            h.matcher() == self.matcher(),
    {
        Helper {
            base_url: Some(base_url),
            request_initializer: self.request_initializer,
            mime_matcher: self.mime_matcher,
        }
    }

    /// Binds an initializer; the rest stays.
    pub fn with_request_initializer<J: RequestInitializer>(self, request_initializer: J) -> (h:
        Helper<J, M>)
        ensures
            h.base() == self.base(),
            h.initializer() == request_initializer,
            h.matcher() == self.matcher(),
    {
        Helper { base_url: self.base_url, request_initializer, mime_matcher: self.mime_matcher }
    }

    /// Binds a matcher; the rest stays.
    pub fn with_mime_matcher<N: MimeMatcher>(self, mime_matcher: N) -> (h: Helper<I, N>)
        ensures
            h.base() == self.base(),
            h.initializer() == self.initializer(),
            h.matcher() == mime_matcher,
    {
        Helper {
            base_url: self.base_url,
            request_initializer: self.request_initializer,
            mime_matcher,
        }
    }

    /// Reads `raw_url` as an address: relative to the base address where one
    /// is bound, as an absolute address where none is.
    pub fn parse_uri(&self, raw_url: &str) -> (r: Result<url::Url, url::ParseError>)
        ensures
            r == match self.base() {
                Some(base) => url_joined(base, raw_url@),
                None => url_parsed(raw_url@),
            },
    {
        match &self.base_url {
            Some(base) => url_join(base, raw_url),
            None => url_parse(raw_url),
        }
    }

    /// A request to start from: what the initializer gives.
    pub fn request(&self) -> (r: http::request::Builder)
        ensures
            call_ensures(I::initialize, (&self.initializer(),), r),
    {
        self.request_initializer.initialize()
    }

    /// Tells whether the header `actual` is of the content type `expect`:
    /// what the matcher says.
    pub fn match_mime(&self, expect: &MimeType, actual: &http::HeaderValue) -> (r: bool)
        ensures
            call_ensures(M::matches, (&self.matcher(), expect, actual), r),
    {
        self.mime_matcher.matches(expect, actual)
    }
}

} // verus!
