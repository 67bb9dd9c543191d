//! ClickHouse client: its configuration, its errors, and the decisions it makes
//! on a proxy's reply. Sending the request and reading the reply are I/O and
//! belong to the caller, which hands the outcomes to the functions here.
use vstd::prelude::*;
use vstd::string::StringExecFns;

use crate::outside::{
    ascii_bytes, client_default_headers, header_entries, header_map_default,
    header_map_insert_static, header_map_keys_len, http_client_build, http_error_text,
    http_error_to_string, is_static_header_name, is_static_header_value, json_as_str,
    json_error_text, json_error_to_string, json_from_slice, json_get, json_member,
    json_parse_result, json_text, query_pair_fits, reqwest_default_headers, url_append_query_pair,
    url_as_str, url_error_text, url_error_to_string, url_parse, url_parse_result, url_text,
    url_with_query_pair, urlencoded_len, header_insert_room,
};

verus! {

/// Errors that can occur when interacting with ClickHouse.
#[derive(Debug)]
pub enum ClickHouseError {
    /// An error returned by the ClickHouse server or proxy.
    Server(String),
    /// An error that occurred while sending the request or receiving the response.
    Request(reqwest::Error),
    /// An error that occurred while parsing the JSON response.
    Parse(serde_json::Error),
    /// An error that occurred while parsing the URL.
    InvalidUrl(url::ParseError),
}

/// The message of an error: a fixed prefix for each kind of error, then the
/// error's own text.
pub open spec fn error_message(e: ClickHouseError) -> Seq<char> {
    match e {
        ClickHouseError::Server(m) => "ClickHouse error: "@ + m@,
        ClickHouseError::Request(x) => "Request failed: "@ + http_error_text(x),
        ClickHouseError::Parse(x) => "Failed to parse response: "@ + json_error_text(x),
        ClickHouseError::InvalidUrl(x) => "Invalid URL: "@ + url_error_text(x),
    }
}

/// Two errors are the same error: the same server message, or the same
/// outside error.
pub open spec fn same_error(a: ClickHouseError, b: ClickHouseError) -> bool {
    match a {
        ClickHouseError::Server(m) => b matches ClickHouseError::Server(n) && m@ == n@,
        _ => a == b,
    }
}

/// Two outcomes are the same: equal results, or the same error.
pub open spec fn same_outcome<T>(a: Result<T, ClickHouseError>, b: Result<T, ClickHouseError>) -> bool {
    match a {
        Ok(x) => b == Ok::<T, ClickHouseError>(x),
        Err(e) => b matches Err(f) && same_error(e, f),
    }
}

impl ClickHouseError {
    /// The human-readable message of this error.
    pub fn message(&self) -> (r: String)
        ensures
            r@ == error_message(*self),
    {
        match self {
            ClickHouseError::Server(m) => String::from_str("ClickHouse error: ").concat(m.as_str()),
            ClickHouseError::Request(e) => {
                let t = http_error_to_string(e);
                String::from_str("Request failed: ").concat(t.as_str())
            },
            ClickHouseError::Parse(e) => {
                let t = json_error_to_string(e);
                String::from_str("Failed to parse response: ").concat(t.as_str())
            },
            ClickHouseError::InvalidUrl(e) => {
                let t = url_error_to_string(e);
                String::from_str("Invalid URL: ").concat(t.as_str())
            },
        }
    }
}

/// A column descriptor in a ClickHouse JSON response.
#[derive(Debug, Clone, PartialEq, Eq)]
pub struct ColumnDescriptor {
    /// The name of the column.
    pub name: String,
    /// The ClickHouse type of the column (`type` in the JSON response).
    pub column_type: String,
}

/// The headers that the client hands to its HTTP client: the caller's
/// headers, with `content-type` set to `text/plain` and `accept` to
/// `application/json`.
pub open spec fn request_headers(initial: Option<reqwest::header::HeaderMap>) -> Map<Seq<char>, Seq<Seq<u8>>> {
    let base = match initial {
        Some(h) => header_entries(h),
        None => Map::empty(),
    };
    base.insert("content-type"@, seq![ascii_bytes("text/plain"@)]).insert(
        "accept"@,
        seq![ascii_bytes("application/json"@)],
    )
}

/// The caller's headers leave room for the two that the client adds, in the
/// client's map and in the HTTP client builder's copy of it.
pub open spec fn headers_fit_spec(initial: Option<reqwest::header::HeaderMap>) -> bool {
    match initial {
        Some(h) => header_entries(h).dom().finite() && header_entries(h).dom().len() + 2
            < header_insert_room(),
        None => true,
    }
}

/// Whether `initial` leaves room for the headers that the client adds. A map
/// that does not would make `HeaderMap` panic on insertion.
pub fn headers_fit(initial: &Option<reqwest::header::HeaderMap>) -> (r: bool)
    ensures
        r == headers_fit_spec(*initial),
{
    match initial {
        Some(h) => {
            let n = header_map_keys_len(h);
            n < 6552
        },
        None => true,
    }
}

/// The headers that every request of the client carries: the caller's
/// headers, with `content-type: text/plain` and `accept: application/json`
/// set (replacing any values the caller gave those names).
pub fn request_header_map(initial: Option<reqwest::header::HeaderMap>) -> (r: reqwest::header::HeaderMap)
    requires
        headers_fit_spec(initial),
    ensures
        header_entries(r) == request_headers(initial),
        header_entries(r).dom().finite(),
        header_entries(r).dom().len() < header_insert_room(),
{
    let mut headers = match initial {
        Some(h) => h,
        None => header_map_default(),
    };
    proof {
        reveal_strlit("content-type");
        reveal_strlit("text/plain");
        reveal_strlit("accept");
        reveal_strlit("application/json");
    }
    let ghost base = header_entries(headers);
    header_map_insert_static(&mut headers, "content-type", "text/plain");
    let ghost mid = header_entries(headers);
    header_map_insert_static(&mut headers, "accept", "application/json");
    proof {
        vstd::map::axiom_map_insert_domain(base, "content-type"@, seq![ascii_bytes("text/plain"@)]);
        vstd::set::axiom_set_insert_len(base.dom(), "content-type"@);
        vstd::map::axiom_map_insert_domain(mid, "accept"@, seq![ascii_bytes("application/json"@)]);
        vstd::set::axiom_set_insert_len(mid.dom(), "accept"@);
    }
    headers
}

/// The headers a client sends with every request: the caller's headers,
/// each name with its last value, then `content-type: text/plain` and
/// `accept: application/json`.
pub open spec fn client_headers(initial: Option<reqwest::header::HeaderMap>) -> Map<Seq<char>, Seq<Seq<u8>>> {
    reqwest_default_headers(request_headers(initial))
}

/// The client keeps the caller's headers and always asks for JSON in plain
/// text: its requests carry exactly `content-type: text/plain` and
/// `accept: application/json`, and every other name the caller set, with
/// the last value the caller gave it.
pub proof fn law_client_headers_keep_caller_headers(
    initial: Option<reqwest::header::HeaderMap>,
    name: Seq<char>,
)
    ensures
        client_headers(initial).dom().contains("content-type"@),
        client_headers(initial)["content-type"@] == seq![ascii_bytes("text/plain"@)],
        client_headers(initial).dom().contains("accept"@),
        client_headers(initial)["accept"@] == seq![ascii_bytes("application/json"@)],
        initial matches Some(h) ==> (name != "content-type"@ && name != "accept"@ ==> (
        client_headers(initial).dom().contains(name) == (header_entries(h).dom().contains(name)
            && header_entries(h)[name].len() > 0) && (client_headers(initial).dom().contains(name)
            ==> client_headers(initial)[name] == seq![header_entries(h)[name].last()]))),
{
    reveal_strlit("content-type");
    reveal_strlit("accept");
    assert("content-type"@.len() != "accept"@.len());
    let r = request_headers(initial);
    assert(r.dom().contains("content-type"@) && r["content-type"@].len() > 0);
    assert(r.dom().contains("accept"@) && r["accept"@].len() > 0);
}

/// What a client is made of, as contracts see it.
pub struct ClientConfig {
    /// The proxy URL, with `default_format=JSON` among its query pairs.
    pub proxy_url: url::Url,
    /// The headers the HTTP client adds to every request it sends.
    pub default_headers: Map<Seq<char>, Seq<Seq<u8>>>,
    /// The HTTP client that sends the queries.
    pub http_client: reqwest::Client,
}

/// A client for interacting with ClickHouse via a proxy API.
#[derive(Debug, Clone)]
pub struct ClickHouseClient {
    /// The URL of the ClickHouse proxy.
    proxy_url: url::Url,
    /// The underlying HTTP client.
    client: reqwest::Client,
}

impl View for ClickHouseClient {
    type V = ClientConfig;

    closed spec fn view(&self) -> ClientConfig {
        ClientConfig {
            proxy_url: self.proxy_url,
            default_headers: client_default_headers(self.client),
            http_client: self.client,
        }
    }
}

/// The URL a client posts to, made from the configured proxy URL.
pub open spec fn client_url(proxy: url::Url) -> url::Url {
    url_with_query_pair(proxy, "default_format"@, "JSON"@)
}

/// The proxy URL is short enough that `default_format=JSON` can be appended
/// without `url` panicking (or it is no URL, and nothing is appended).
pub open spec fn proxy_url_fits_spec(proxy_url: Seq<char>) -> bool {
    match url_parse_result(proxy_url) {
        Ok(u) => query_pair_fits(u, "default_format"@, "JSON"@),
        Err(_) => true,
    }
}

/// What `ClickHouseClient::new` returns: `InvalidUrl` with the parse error
/// exactly where the proxy URL does not parse; otherwise a client that posts
/// to the proxy URL with `default_format=JSON` and sends `client_headers`, or
/// a request error where the HTTP client cannot be built.
pub open spec fn new_outcome(
    proxy_url: Seq<char>,
    initial: Option<reqwest::header::HeaderMap>,
    r: Result<ClickHouseClient, ClickHouseError>,
) -> bool {
    match url_parse_result(proxy_url) {
        Err(e) => r == Err::<ClickHouseClient, ClickHouseError>(ClickHouseError::InvalidUrl(e)),
        Ok(u) => match r {
            Ok(c) => c@.proxy_url == client_url(u) && c@.default_headers == client_headers(initial),
            Err(e) => e is Request,
        },
    }
}

/// The URL a client posts to depends on the proxy URL alone, not on the
/// caller's headers.
pub proof fn law_client_url_ignores_headers(
    proxy_url: Seq<char>,
    h1: Option<reqwest::header::HeaderMap>,
    h2: Option<reqwest::header::HeaderMap>,
    c1: ClickHouseClient,
    c2: ClickHouseClient,
)
    requires
        new_outcome(proxy_url, h1, Ok(c1)),
        new_outcome(proxy_url, h2, Ok(c2)),
    ensures
        c1@.proxy_url == c2@.proxy_url,
{
}

impl ClickHouseClient {
    /// Creates a new `ClickHouseClient`.
    ///
    /// * `proxy_url` - The URL of the ClickHouse proxy.
    /// * `initial_headers` - Optional headers to include in every request (e.g., authentication).
    ///
    /// The proxy URL gets the query pair `default_format=JSON`, so that the
    /// proxy answers in ClickHouse's JSON format. Nothing is sent.
    pub fn new(proxy_url: &str, initial_headers: Option<reqwest::header::HeaderMap>) -> (r: Result<
        Self,
        ClickHouseError,
    >)
        requires
            headers_fit_spec(initial_headers),
            proxy_url_fits_spec(proxy_url@),
        ensures
            new_outcome(proxy_url@, initial_headers, r),
            r matches Ok(c) ==> url_parse_result(proxy_url@) matches Ok(u) && c@.proxy_url
                == url_with_query_pair(u, "default_format"@, "JSON"@),
            url_parse_result(proxy_url@) matches Err(e) ==> r == Err::<Self, ClickHouseError>(
                ClickHouseError::InvalidUrl(e),
            ),
    {
        let mut url = match url_parse(proxy_url) {
            Ok(u) => u,
            Err(e) => return Err(ClickHouseError::InvalidUrl(e)),
        };
        url_append_query_pair(&mut url, "default_format", "JSON");
        let headers = request_header_map(initial_headers);
        proof {
            reveal_strlit("accept");
            assert(header_entries(headers).dom().insert("accept"@) =~= header_entries(headers).dom());
        }
        match http_client_build(headers) {
            Ok(client) => Ok(ClickHouseClient { proxy_url: url, client }),
            Err(e) => Err(ClickHouseError::Request(e)),
        }
    }

    /// Whether the proxy URL leaves room for `default_format=JSON`: a URL
    /// whose serialization would pass `u32::MAX` bytes makes `url` panic.
    pub fn proxy_url_fits(proxy_url: &str) -> (r: bool)
        ensures
            r == proxy_url_fits_spec(proxy_url@),
            url_parse_result(proxy_url@) matches Ok(u) ==> (r <==> vstd::utf8::encode_utf8(
                url_text(u),
            ).len() <= 0xffff_ffff - 20),
            url_parse_result(proxy_url@) is Err ==> r,
    {
        match url_parse(proxy_url) {
            Ok(u) => {
                let n = url_as_str(&u).as_bytes().len();
                proof {
                    reveal_strlit("default_format");
                    reveal_strlit("JSON");
                    reveal_with_fuel(urlencoded_len, 15);
                    assert(urlencoded_len("JSON"@) == 4);
                    assert(urlencoded_len("default_format"@) == 14);
                    assert(vstd::utf8::encode_utf8(url_text(u)).len() == n);
                }
                n <= 0xffff_ffff - 20
            },
            Err(_) => true,
        }
    }

    /// `new`, where its inputs allow it: `None` where the caller's headers
    /// leave no room for the client's two, or where the proxy URL is too long
    /// to take `default_format=JSON` (inputs on which building the client
    /// would panic), else what `new` returns.
    pub fn new_checked(proxy_url: &str, initial_headers: Option<reqwest::header::HeaderMap>) -> (r:
        Option<Result<Self, ClickHouseError>>)
        ensures
            r is None <==> !(headers_fit_spec(initial_headers) && proxy_url_fits_spec(proxy_url@)),
            r matches Some(x) ==> new_outcome(proxy_url@, initial_headers, x),
            initial_headers is None && (url_parse_result(proxy_url@) matches Ok(u)
                ==> vstd::utf8::encode_utf8(url_text(u)).len() <= 0xffff_ffff - 20) ==> r is Some,
    {
        if !headers_fit(&initial_headers) || !Self::proxy_url_fits(proxy_url) {
            return None;
        }
        Some(Self::new(proxy_url, initial_headers))
    }

    /// The URL, with its `default_format=JSON` query pair, that queries are posted to.
    pub fn proxy_url(&self) -> (r: &str)
        ensures
            r@ == url_text(self@.proxy_url),
    {
        url_as_str(&self.proxy_url)
    }

    /// The HTTP client that sends the queries.
    pub fn http_client(&self) -> (r: &reqwest::Client)
        ensures
            *r == self@.http_client,
    {
        &self.client
    }
}

/// How the body of the proxy's reply is to be read.
pub enum ReplyBody {
    /// The request failed: the body is the proxy's error text.
    ErrorText,
    /// The request succeeded: the body is a JSON document.
    Document,
}

/// An HTTP status in the success class (2xx).
pub open spec fn is_success_status(status: u16) -> bool {
    200 <= status && status <= 299
}

/// How to read the body of a reply with the given HTTP status: a success
/// status (2xx) carries a JSON document, any other the proxy's error text.
pub fn reply_body_for_status(status: u16) -> (r: ReplyBody)
    ensures
        r is Document <==> is_success_status(status),
        r is Document <==> (200 <= status && status <= 299),
{
    if 200 <= status && status <= 299 {
        ReplyBody::Document
    } else {
        ReplyBody::ErrorText
    }
}

/// The error for a reply with a failure status, given what reading its body
/// as text gave (as a text, or the read error): the text itself, or
/// "Unknown error" where it could not be read.
pub open spec fn server_error_matches(text: Result<Seq<char>, reqwest::Error>, e: ClickHouseError) -> bool {
    match text {
        Ok(t) => e matches ClickHouseError::Server(m) && m@ == t,
        Err(_) => e matches ClickHouseError::Server(m) && m@ == "Unknown error"@,
    }
}

/// A read result, with the text taken by its view.
pub open spec fn text_view(text: Result<String, reqwest::Error>) -> Result<Seq<char>, reqwest::Error> {
    match text {
        Ok(t) => Ok(t@),
        Err(e) => Err(e),
    }
}

/// A read result, with the bytes taken by their view.
pub open spec fn bytes_view(body: Result<Vec<u8>, reqwest::Error>) -> Result<Seq<u8>, reqwest::Error> {
    match body {
        Ok(b) => Ok(b@),
        Err(e) => Err(e),
    }
}

/// The error for a reply with a failure status, given what reading its body
/// as text gave: the text itself, or "Unknown error" where it could not be read.
pub fn server_error(text: Result<String, reqwest::Error>) -> (e: ClickHouseError)
    ensures
        server_error_matches(text_view(text), e),
        text matches Ok(t) ==> e == ClickHouseError::Server(t),
{
    match text {
        Ok(t) => ClickHouseError::Server(t),
        Err(_) => ClickHouseError::Server(String::from_str("Unknown error")),
    }
}

/// The message of a ClickHouse exception that a JSON document reports: the
/// string value of its top-level member `exception`, if it has one.
pub open spec fn exception_of(doc: serde_json::Value) -> Option<Seq<char>> {
    match json_member(doc, "exception"@) {
        Some(x) => json_text(x),
        None => None,
    }
}

/// The outcome of decoding the body of a reply with a success status: a
/// body that could not be read is a request error, one that is not JSON a
/// parse error, a JSON document that reports an exception a server error
/// with that message, and any other document the result.
pub open spec fn decoded_body(
    body: Result<Seq<u8>, reqwest::Error>,
    r: Result<serde_json::Value, ClickHouseError>,
) -> bool {
    match body {
        Err(e) => r == Err::<serde_json::Value, ClickHouseError>(ClickHouseError::Request(e)),
        Ok(b) => match json_parse_result(b) {
            Err(e) => r == Err::<serde_json::Value, ClickHouseError>(ClickHouseError::Parse(e)),
            Ok(doc) => document_outcome(doc, r),
        },
    }
}

/// Decodes the body of a reply with a success status, given what reading its
/// bytes gave. A body that could not be read is a request error, one that is
/// not JSON a parse error, and a JSON document that reports an exception (a
/// string member `exception`) is a server error with that message, even though
/// the status was a success. Any other document is returned for conversion
/// into a `ClickHouseResponse`.
pub fn decode_body(body: Result<Vec<u8>, reqwest::Error>) -> (r: Result<serde_json::Value, ClickHouseError>)
    ensures
        decoded_body(bytes_view(body), r),
        body matches Err(e) ==> r == Err::<serde_json::Value, ClickHouseError>(
            ClickHouseError::Request(e),
        ),
        body matches Ok(v) ==> (json_parse_result(v@) matches Err(e) ==> r == Err::<
            serde_json::Value,
            ClickHouseError,
        >(ClickHouseError::Parse(e))),
        body matches Ok(v) ==> (json_parse_result(v@) matches Ok(doc) ==> (
        json_member(doc, "exception"@) matches Some(x) ==> (json_text(x) matches Some(t) ==> (
        r matches Err(ClickHouseError::Server(m)) && m@ == t)))),
        body matches Ok(v) ==> (json_parse_result(v@) matches Ok(doc) ==> (!(json_member(
            doc,
            "exception"@,
        ) matches Some(x) && json_text(x) is Some) ==> r == Ok::<
            serde_json::Value,
            ClickHouseError,
        >(doc))),
{
    let bytes = match body {
        Ok(b) => b,
        Err(e) => return Err(ClickHouseError::Request(e)),
    };
    let doc = match json_from_slice(bytes.as_slice()) {
        Ok(v) => v,
        Err(e) => return Err(ClickHouseError::Parse(e)),
    };
    check_exception(doc)
}

/// The outcome of a parsed reply document: a server error with the message
/// of the exception it reports (a string member `exception`), or else the
/// document itself.
pub open spec fn document_outcome(doc: serde_json::Value, r: Result<serde_json::Value, ClickHouseError>) -> bool {
    match exception_of(doc) {
        Some(m) => r matches Err(ClickHouseError::Server(s)) && s@ == m,
        None => r == Ok::<serde_json::Value, ClickHouseError>(doc),
    }
}

/// Checks a parsed reply document for a ClickHouse exception: ClickHouse can
/// report one in a JSON body even with a success status. A document with a
/// string member `exception` is a server error with that message; any other
/// is returned as it is.
pub fn check_exception(doc: serde_json::Value) -> (r: Result<serde_json::Value, ClickHouseError>)
    ensures
        document_outcome(doc, r),
        json_member(doc, "exception"@) matches Some(x) ==> (json_text(x) matches Some(t) ==> (
        r matches Err(ClickHouseError::Server(m)) && m@ == t)),
        !(json_member(doc, "exception"@) matches Some(x) && json_text(x) is Some) ==> r == Ok::<
            serde_json::Value,
            ClickHouseError,
        >(doc),
{
    let message = match json_get(&doc, "exception") {
        Some(x) => match json_as_str(x) {
            Some(m) => Some(String::from_str(m)),
            None => None,
        },
        None => None,
    };
    match message {
        Some(m) => Err(ClickHouseError::Server(m)),
        None => Ok(doc),
    }
}

/// The outcome of a query for the proxy's reply: with a success status, the
/// decoded body (read as bytes); with any other, the server error for the
/// body read as text. This is what `reply_body_for_status`, `server_error`
/// and `decode_body` give together.
pub open spec fn reply_outcome(
    status: u16,
    text: Result<Seq<char>, reqwest::Error>,
    body: Result<Seq<u8>, reqwest::Error>,
    r: Result<serde_json::Value, ClickHouseError>,
) -> bool {
    if is_success_status(status) {
        decoded_body(body, r)
    } else {
        r matches Err(e) && server_error_matches(text, e)
    }
}

/// The same reply from the proxy always gives the same outcome: two queries
/// that meet the same status and the same body end alike.
pub proof fn law_same_reply_same_outcome(
    status: u16,
    text: Result<Seq<char>, reqwest::Error>,
    body: Result<Seq<u8>, reqwest::Error>,
    r1: Result<serde_json::Value, ClickHouseError>,
    r2: Result<serde_json::Value, ClickHouseError>,
)
    requires
        reply_outcome(status, text, body, r1),
        reply_outcome(status, text, body, r2),
    ensures
        same_outcome(r1, r2),
{
}


/// A client posts to the proxy URL with exactly the pair `default_format=JSON`
/// appended, whatever the URL's length or shape; and a proxy URL that does not
/// parse gives `InvalidUrl` with the parser's own error.
pub proof fn law_new_appends_format_pair(
    proxy_url: Seq<char>,
    initial: Option<reqwest::header::HeaderMap>,
    r: Result<ClickHouseClient, ClickHouseError>,
)
    requires
        new_outcome(proxy_url, initial, r),
    ensures
        r matches Ok(c) ==> url_parse_result(proxy_url) matches Ok(u) && c@.proxy_url
            == url_with_query_pair(u, "default_format"@, "JSON"@),
        url_parse_result(proxy_url) matches Err(e) ==> r == Err::<ClickHouseClient, ClickHouseError>(
            ClickHouseError::InvalidUrl(e),
        ),
{
}

/// A client sends `content-type: text/plain` and `accept: application/json`
/// on top of the caller's headers: every other name the caller gave a value
/// keeps its last value.
pub proof fn law_new_sends_json_headers(
    proxy_url: Seq<char>,
    initial: Option<reqwest::header::HeaderMap>,
    c: ClickHouseClient,
    name: Seq<char>,
)
    requires
        new_outcome(proxy_url, initial, Ok(c)),
    ensures
        c@.default_headers.dom().contains("content-type"@),
        c@.default_headers["content-type"@] == seq![ascii_bytes("text/plain"@)],
        c@.default_headers.dom().contains("accept"@),
        c@.default_headers["accept"@] == seq![ascii_bytes("application/json"@)],
        initial matches Some(h) ==> (name != "content-type"@ && name != "accept"@ && header_entries(
            h,
        ).dom().contains(name) && header_entries(h)[name].len() > 0 ==> c@.default_headers.dom().contains(name)
            && c@.default_headers[name] == seq![header_entries(h)[name].last()]),
{
    law_client_headers_keep_caller_headers(initial, name);
}

/// Every proxy URL that parses is accepted by `new_checked` (with no caller
/// headers) unless its serialization, with the 20 bytes of the pair, would
/// pass `u32::MAX`.
pub proof fn law_ordinary_urls_fit(proxy_url: Seq<char>)
    requires
        url_parse_result(proxy_url) matches Ok(u) ==> vstd::utf8::encode_utf8(url_text(u)).len()
            <= 0xffff_ffff - 20,
    ensures
        proxy_url_fits_spec(proxy_url),
        headers_fit_spec(None),
{
    reveal_strlit("default_format");
    reveal_strlit("JSON");
    reveal_with_fuel(urlencoded_len, 15);
    assert(urlencoded_len("JSON"@) == 4);
    assert(urlencoded_len("default_format"@) == 14);
}

/// Exactly the statuses 200 to 299 are read as a JSON document.
pub proof fn law_only_2xx_is_document(status: u16, r: ReplyBody)
    requires
        r is Document <==> is_success_status(status),
    ensures
        r is Document <==> (200 <= status && status <= 299),
{
}

/// Any reply whose status is not in 200 to 299 ends in a server error, with
/// the reply's text, or "Unknown error" where it could not be read.
pub proof fn law_non_2xx_is_server_error(
    status: u16,
    text: Result<Seq<char>, reqwest::Error>,
    body: Result<Seq<u8>, reqwest::Error>,
    r: Result<serde_json::Value, ClickHouseError>,
)
    requires
        !(200 <= status && status <= 299),
        reply_outcome(status, text, body, r),
    ensures
        r matches Err(ClickHouseError::Server(m)) && (match text {
            Ok(t) => m@ == t,
            Err(_) => m@ == "Unknown error"@,
        }),
{
}

/// A body that parses as a whole into a document without a string
/// `exception` decodes to exactly that document, whatever its length; a body
/// that does not parse gives the parser's own error.
pub proof fn law_decode_whole_body(
    b: Seq<u8>,
    r: Result<serde_json::Value, ClickHouseError>,
)
    requires
        decoded_body(Ok(b), r),
    ensures
        json_parse_result(b) matches Ok(doc) ==> (!(json_member(doc, "exception"@) matches Some(x)
            && json_text(x) is Some) ==> r == Ok::<serde_json::Value, ClickHouseError>(doc)),
        json_parse_result(b) matches Err(e) ==> r == Err::<serde_json::Value, ClickHouseError>(
            ClickHouseError::Parse(e),
        ),
{
}

/// A document whose top-level member `exception` is a JSON string is a server
/// error with that string as its message, whatever other members it has.
pub proof fn law_exception_is_server_error(
    doc: serde_json::Value,
    r: Result<serde_json::Value, ClickHouseError>,
)
    requires
        document_outcome(doc, r),
    ensures
        json_member(doc, "exception"@) matches Some(x) ==> (json_text(x) matches Some(t) ==> (
        r matches Err(ClickHouseError::Server(m)) && m@ == t)),
{
}

} // verus!
