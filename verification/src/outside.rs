//! The outside crates as this library sees them: the types it carries, the
//! names of what their functions compute, and the thin wrappers through which
//! the verified code calls them. Every contract in this file is trusted.
use vstd::prelude::*;

verus! {

// ---------------------------------------------------------------------------
// Types of outside crates (opaque to Verus).
// ---------------------------------------------------------------------------

/// `url::Url`, a parsed URL.
#[verifier::external_type_specification]
#[verifier::external_body]
pub struct ExUrl(url::Url);

/// `url::ParseError`, why a string is not a URL.
#[verifier::external_type_specification]
#[verifier::external_body]
pub struct ExUrlParseError(url::ParseError);

/// `reqwest::Client`, an HTTP client with its default headers.
#[verifier::external_type_specification]
#[verifier::external_body]
pub struct ExHttpClient(reqwest::Client);

/// `reqwest::Error`, a failure to build a client, send a request or read a reply.
#[verifier::external_type_specification]
#[verifier::external_body]
pub struct ExHttpError(reqwest::Error);

/// `reqwest::header::HeaderMap`, a multimap from header names to header values.
#[verifier::external_type_specification]
#[verifier::external_body]
#[verifier::reject_recursive_types(T)]
pub struct ExHeaderMap<T>(reqwest::header::HeaderMap<T>);

/// `reqwest::header::HeaderValue`, the value of one header.
#[verifier::external_type_specification]
#[verifier::external_body]
pub struct ExHeaderValue(reqwest::header::HeaderValue);

/// `serde_json::Value`, a parsed JSON document.
#[verifier::external_type_specification]
#[verifier::external_body]
pub struct ExJsonValue(serde_json::Value);

/// `serde_json::Error`, why bytes are not the JSON that was asked for.
#[verifier::external_type_specification]
#[verifier::external_body]
pub struct ExJsonError(serde_json::Error);

// ---------------------------------------------------------------------------
// Names for what outside functions compute.
// ---------------------------------------------------------------------------

/// What `url::Url::parse` returns for a string: the URL, or why it is none.
pub uninterp spec fn url_parse_result(text: Seq<char>) -> Result<url::Url, url::ParseError>;

/// The URL that `url.query_pairs_mut().append_pair(key, value)` leaves behind.
pub uninterp spec fn url_with_query_pair(u: url::Url, key: Seq<char>, value: Seq<char>) -> url::Url;

/// The serialization that `url::Url::as_str` returns.
pub uninterp spec fn url_text(u: url::Url) -> Seq<char>;

/// What a `HeaderMap` holds: for each (lower-case) header name, its values in
/// insertion order, each as its bytes.
pub uninterp spec fn header_entries(h: reqwest::header::HeaderMap) -> Map<Seq<char>, Seq<Seq<u8>>>;

/// What `serde_json::from_slice::<serde_json::Value>` returns for bytes: the
/// JSON document, or why they are not one.
pub uninterp spec fn json_parse_result(bytes: Seq<u8>) -> Result<serde_json::Value, serde_json::Error>;

/// The headers that a `reqwest::Client` adds to every request it sends: for
/// each (lower-case) name, its values as bytes.
pub uninterp spec fn client_default_headers(c: reqwest::Client) -> Map<Seq<char>, Seq<Seq<u8>>>;

/// The text that `to_string` gives for a `reqwest::Error` (its `Display`).
pub uninterp spec fn http_error_text(e: reqwest::Error) -> Seq<char>;

/// The text that `to_string` gives for a `serde_json::Error` (its `Display`).
pub uninterp spec fn json_error_text(e: serde_json::Error) -> Seq<char>;

/// The text that `to_string` gives for a `url::ParseError` (its `Display`).
pub uninterp spec fn url_error_text(e: url::ParseError) -> Seq<char>;

/// What `serde_json::Value::get` with a string key returns: the member of that
/// name where the value is an object that has one.
pub uninterp spec fn json_member(v: serde_json::Value, key: Seq<char>) -> Option<serde_json::Value>;

/// What `serde_json::Value::as_str` returns: the text of a JSON string.
pub uninterp spec fn json_text(v: serde_json::Value) -> Option<Seq<char>>;

// ---------------------------------------------------------------------------
// Rules of `http` that the header wrapper relies on.
// ---------------------------------------------------------------------------

/// A byte that `http` accepts in a header name given by `HeaderName::from_static`
/// (its lower-case token table).
pub open spec fn is_lower_token_char(c: char) -> bool {
    ||| ('a' <= c && c <= 'z')
    ||| ('0' <= c && c <= '9')
    ||| c == '!' || c == '#' || c == '$' || c == '%' || c == '&' || c == '\''
    ||| c == '*' || c == '+' || c == '-' || c == '.' || c == '^' || c == '_'
    ||| c == '`' || c == '|' || c == '~'
}

/// A string that `HeaderName::from_static` accepts without panicking.
pub open spec fn is_static_header_name(s: Seq<char>) -> bool {
    &&& 0 < s.len() <= 65535
    &&& forall|i: int| 0 <= i < s.len() ==> is_lower_token_char(#[trigger] s[i])
}

/// A character that `HeaderValue::from_static` accepts: visible ASCII or tab.
pub open spec fn is_visible_ascii_char(c: char) -> bool {
    (' ' <= c && c < '\x7f') || c == '\t'
}

/// A string that `HeaderValue::from_static` accepts without panicking.
pub open spec fn is_static_header_value(s: Seq<char>) -> bool {
    forall|i: int| 0 <= i < s.len() ==> is_visible_ascii_char(#[trigger] s[i])
}

/// The bytes of an ASCII string.
pub open spec fn ascii_bytes(s: Seq<char>) -> Seq<u8> {
    s.map_values(|c: char| c as u8)
}

/// A map that holds exactly `n` distinct header names (so finitely many).
pub open spec fn holds_header_names(h: reqwest::header::HeaderMap, n: nat) -> bool {
    header_entries(h).dom().finite() && header_entries(h).dom().len() == n
}

/// How many distinct header names a map may hold before one more `insert`, so
/// that the map cannot reach the size at which `http` panics.
pub open spec fn header_insert_room() -> nat {
    6554
}

/// The headers a client built by `reqwest` with `default_headers(h)` sends:
/// `accept: */*`, overridden, name by name, by the last value each name has in
/// `h` (the builder inserts the pairs of `h` one after another, and each
/// insertion replaces the values the name had).
pub open spec fn reqwest_default_headers(h: Map<Seq<char>, Seq<Seq<u8>>>) -> Map<Seq<char>, Seq<Seq<u8>>> {
    Map::new(
        |k: Seq<char>| k == "accept"@ || (h.dom().contains(k) && h[k].len() > 0),
        |k: Seq<char>|
            if h.dom().contains(k) && h[k].len() > 0 {
                seq![h[k].last()]
            } else {
                seq![ascii_bytes("*/*"@)]
            },
    )
}

/// A character that `form_urlencoded` writes as itself (or a space, written `+`).
pub open spec fn is_urlencoded_unchanged(c: char) -> bool {
    ||| ('a' <= c && c <= 'z')
    ||| ('A' <= c && c <= 'Z')
    ||| ('0' <= c && c <= '9')
    ||| c == '*' || c == '-' || c == '.' || c == '_' || c == ' '
}

/// The number of bytes of a character in UTF-8.
pub open spec fn utf8_len(c: char) -> nat {
    if (c as u32) < 0x80 {
        1
    } else if (c as u32) < 0x800 {
        2
    } else if (c as u32) < 0x10000 {
        3
    } else {
        4
    }
}

/// The number of bytes `form_urlencoded` writes for a string: one for each
/// character it keeps (or writes as `+`), three (`%XX`) for every other byte.
pub open spec fn urlencoded_len(s: Seq<char>) -> nat
    decreases s.len(),
{
    if s.len() == 0 {
        0
    } else {
        (if is_urlencoded_unchanged(s[0]) {
            1
        } else {
            3 * utf8_len(s[0])
        }) + urlencoded_len(s.drop_first())
    }
}

/// Appending the pair `key=value` keeps the URL's serialization within the
/// `u32` positions that `url` keeps of it. Past that, putting a fragment back
/// after the new query panics in `url`.
pub open spec fn query_pair_fits(u: url::Url, key: Seq<char>, value: Seq<char>) -> bool {
    vstd::utf8::encode_utf8(url_text(u)).len() + 2 + urlencoded_len(key) + urlencoded_len(value)
        <= 0xffff_ffff
}

// ---------------------------------------------------------------------------
// Wrappers.
// ---------------------------------------------------------------------------

/// `url::Url::parse`: the contract says that the result, URL or error, is the
/// named result for the input.
#[verifier::external_body]
pub(crate) fn url_parse(text: &str) -> (r: Result<url::Url, url::ParseError>)
    ensures
        r == url_parse_result(text@),
{
    url::Url::parse(text)
}

/// `url::form_urlencoded::Serializer::append_pair`, reached through
/// `url::Url::query_pairs_mut` and finished when the serializer is dropped: the
/// contract says that the URL becomes the named result of appending the pair.
/// The `requires` leaves out URLs so long that the appended pair would take
/// the serialization past `u32::MAX` bytes, where `url` panics (its positions
/// are `u32`).
#[verifier::external_body]
pub(crate) fn url_append_query_pair(u: &mut url::Url, key: &str, value: &str)
    requires
        query_pair_fits(*old(u), key@, value@),
    ensures
        *final(u) == url_with_query_pair(*old(u), key@, value@),
{
    u.query_pairs_mut().append_pair(key, value);
}

/// `url::Url::as_str`: the contract says that the text is the named serialization.
#[verifier::external_body]
pub(crate) fn url_as_str(u: &url::Url) -> (r: &str)
    ensures
        r@ == url_text(*u),
{
    u.as_str()
}

/// `HeaderMap::default`: the contract says that the new map is empty.
#[verifier::external_body]
pub(crate) fn header_map_default() -> (r: reqwest::header::HeaderMap)
    ensures
        header_entries(r) =~= Map::empty(),
{
    reqwest::header::HeaderMap::default()
}

/// `HeaderMap::keys_len`: the contract says that it counts the distinct names,
/// of which a map holds finitely many.
#[verifier::external_body]
pub(crate) fn header_map_keys_len(h: &reqwest::header::HeaderMap) -> (r: usize)
    ensures
        holds_header_names(*h, r as nat),
{
    h.keys_len()
}

/// `HeaderMap::insert`, with its name and value made by `HeaderName::from_static`
/// and `HeaderValue::from_static`: the contract says that the name's earlier
/// values are all replaced by the one new value. The `requires` leaves out the
/// names and values on which `from_static` panics, and maps so large that the
/// insertion could overflow the map's fixed maximum size and panic.
#[verifier::external_body]
pub(crate) fn header_map_insert_static(
    h: &mut reqwest::header::HeaderMap,
    name: &'static str,
    value: &'static str,
)
    requires
        is_static_header_name(name@),
        is_static_header_value(value@),
        header_entries(*old(h)).dom().finite(),
        header_entries(*old(h)).dom().len() < header_insert_room(),
    ensures
        header_entries(*final(h)) == header_entries(*old(h)).insert(name@, seq![ascii_bytes(value@)]),
        header_entries(*final(h)).dom().finite(),
{
    h.insert(
        reqwest::header::HeaderName::from_static(name),
        reqwest::header::HeaderValue::from_static(value),
    );
}

/// `reqwest::ClientBuilder::build` on `Client::builder().default_headers(headers)`.
/// Whether the client can be built depends on the machine (its TLS and proxy
/// settings), so the contract does not say when it fails. A client that is
/// built sends the headers that the builder collected: `accept: */*`, then
/// each pair of `headers` inserted in turn.
/// The `requires` leaves out maps with so many names that the builder's own
/// map (which starts with `accept`) could overflow its fixed maximum size and
/// panic while the pairs are copied into it.
#[verifier::external_body]
pub(crate) fn http_client_build(headers: reqwest::header::HeaderMap) -> (r: Result<reqwest::Client, reqwest::Error>)
    requires
        header_entries(headers).dom().finite(),
        header_entries(headers).dom().insert("accept"@).len() < header_insert_room(),
    ensures
        r matches Ok(c) ==> client_default_headers(c) == reqwest_default_headers(header_entries(headers)),
{
    reqwest::Client::builder().default_headers(headers).build()
}

/// `serde_json::from_slice::<serde_json::Value>`: the contract says that the
/// result, document or error, is the named result for the bytes.
#[verifier::external_body]
pub(crate) fn json_from_slice(bytes: &[u8]) -> (r: Result<serde_json::Value, serde_json::Error>)
    ensures
        r == json_parse_result(bytes@),
{
    serde_json::from_slice(bytes)
}

/// `serde_json::Value::get` with a string key: the contract says that the
/// result is the named member.
#[verifier::external_body]
pub(crate) fn json_get<'a>(v: &'a serde_json::Value, key: &str) -> (r: Option<&'a serde_json::Value>)
    ensures
        match r {
            Some(m) => json_member(*v, key@) == Some(*m),
            None => json_member(*v, key@) is None,
        },
{
    v.get(key)
}

/// `serde_json::Value::as_str`: the contract says that the result is the named text.
#[verifier::external_body]
pub(crate) fn json_as_str(v: &serde_json::Value) -> (r: Option<&str>)
    ensures
        match r {
            Some(s) => json_text(*v) == Some(s@),
            None => json_text(*v) is None,
        },
{
    v.as_str()
}

/// `url::Url::clone` (derived): the contract says that the copy equals the URL.
pub assume_specification[ <url::Url as Clone>::clone ](u: &url::Url) -> (r: url::Url)
    ensures
        r == *u,
;

/// `reqwest::Client::clone`: the contract says that the copy equals the
/// client (it shares the same inner client through an `Arc`).
pub assume_specification[ <reqwest::Client as Clone>::clone ](c: &reqwest::Client) -> (r: reqwest::Client)
    ensures
        r == *c,
;

/// `reqwest::Error`'s `Display`, through `to_string`: the contract says that
/// the text is the named text of the error.
#[verifier::external_body]
pub(crate) fn http_error_to_string(e: &reqwest::Error) -> (r: String)
    ensures
        r@ == http_error_text(*e),
{
    e.to_string()
}

/// `serde_json::Error`'s `Display`, through `to_string`: the contract says that
/// the text is the named text of the error.
#[verifier::external_body]
pub(crate) fn json_error_to_string(e: &serde_json::Error) -> (r: String)
    ensures
        r@ == json_error_text(*e),
{
    e.to_string()
}

/// `url::ParseError`'s `Display`, through `to_string`: the contract says that
/// the text is the named text of the error.
#[verifier::external_body]
pub(crate) fn url_error_to_string(e: &url::ParseError) -> (r: String)
    ensures
        r@ == url_error_text(*e),
{
    e.to_string()
}

} // verus!
