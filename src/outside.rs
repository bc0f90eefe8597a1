//! What the library takes from reqwest and serde_json, with the contracts it
//! relies on.

use vstd::prelude::*;

use crate::text::{digit_char, has_prefix};

verus! {

/// A proxy for the HTTP transport, as reqwest builds it.
#[verifier::external_type_specification]
#[verifier::external_body]
pub struct ExProxy(reqwest::Proxy);

/// reqwest's error type.
#[verifier::external_type_specification]
#[verifier::external_body]
pub struct ExReqwestError(reqwest::Error);

/// What the URL parser makes of a text: `None` where it is no absolute URL,
/// else its scheme and, where it has one, its host.
pub uninterp spec fn endpoint_parts(s: Seq<char>) -> Option<(Seq<char>, Option<Seq<char>>)>;

/// The text that a proxy's basic `Proxy-Authorization` header encodes:
/// the user name and the password joined by a colon.
pub uninterp spec fn proxy_basic_auth(p: reqwest::Proxy) -> Option<Seq<char>>;

/// Whether a text begins as reqwest's text of an error does: with the name
/// of the error's kind.
pub open spec fn transport_fault_text(s: Seq<char>) -> bool {
    has_prefix(s, "builder error"@) || has_prefix(s, "error sending request"@) || has_prefix(
        s,
        "request or response body error"@,
    ) || has_prefix(s, "error decoding response body"@) || has_prefix(
        s,
        "error following redirect"@,
    ) || has_prefix(s, "error upgrading connection"@) || has_prefix(
        s,
        "HTTP status client error"@,
    ) || has_prefix(s, "HTTP status server error"@)
}

/// The hexadecimal digit, in lower case, for `d` below sixteen.
pub open spec fn hex_digit(d: nat) -> char {
    if d < 10 {
        digit_char(d)
    } else if d == 10 {
        'a'
    } else if d == 11 {
        'b'
    } else if d == 12 {
        'c'
    } else if d == 13 {
        'd'
    } else if d == 14 {
        'e'
    } else {
        'f'
    }
}

/// How JSON writes one character inside a string literal: the quote and the
/// backslash escaped, the control characters by their short escapes or as
/// `\u00XX`, every other character as it is.
pub open spec fn json_escape_char(c: char) -> Seq<char> {
    if c == '"' {
        seq!['\\', '"']
    } else if c == '\\' {
        seq!['\\', '\\']
    } else if c == '\x08' {
        seq!['\\', 'b']
    } else if c == '\t' {
        seq!['\\', 't']
    } else if c == '\n' {
        seq!['\\', 'n']
    } else if c == '\x0c' {
        seq!['\\', 'f']
    } else if c == '\r' {
        seq!['\\', 'r']
    } else if (c as u32) < 0x20 {
        seq!['\\', 'u', '0', '0', hex_digit((c as u32 / 16) as nat), hex_digit((c as u32 % 16) as nat)]
    } else {
        seq![c]
    }
}

/// The characters of a text as JSON writes them inside a string literal.
pub open spec fn json_escaped(s: Seq<char>) -> Seq<char>
    decreases s.len(),
{
    if s.len() == 0 {
        Seq::empty()
    } else {
        json_escaped(s.drop_last()) + json_escape_char(s.last())
    }
}

/// The JSON string literal that stands for a text.
pub open spec fn json_quoted(s: Seq<char>) -> Seq<char> {
    seq!['"'] + json_escaped(s) + seq!['"']
}

/// Whether reqwest accepts a text as the address of a proxy for HTTP traffic.
pub uninterp spec fn http_proxy_accepts(s: Seq<char>) -> bool;

/// Whether reqwest accepts a text as the address of a proxy for HTTPS traffic.
pub uninterp spec fn https_proxy_accepts(s: Seq<char>) -> bool;

/// Whether reqwest accepts a text as the address of a proxy for all traffic.
pub uninterp spec fn all_proxy_accepts(s: Seq<char>) -> bool;

/// The view of an optional text.
pub open spec fn opt_view(o: Option<String>) -> Option<Seq<char>> {
    match o {
        Some(s) => Some(s@),
        None => None,
    }
}

/// Relies on `reqwest::Url` (the url crate's `Url::from_str`, `Url::scheme` and
/// `Url::host` written out by its `Display`): the scheme and the host of an
/// absolute URL. Where the text does not parse, the parse error's debug text.
#[verifier::external_body]
pub(crate) fn parse_endpoint(endpoint: &str) -> (r: Result<(String, Option<String>), String>)
    ensures
        match r {
            Ok((scheme, host)) => endpoint_parts(endpoint@) == Some((scheme@, opt_view(host))),
            Err(_) => endpoint_parts(endpoint@) is None,
        },
{
    match <reqwest::Url as std::str::FromStr>::from_str(endpoint) {
        Ok(url) => {
            let host = match url.host() {
                Some(h) => Some(h.to_string()),
                None => None,
            };
            Ok((url.scheme().to_string(), host))
        },
        Err(e) => Err(format!("{:?}", e)),
    }
}

/// Relies on `serde_json::to_string` on a string slice: the JSON string literal
/// for `s`. Serializing a `str` into serde_json's byte buffer has no failing
/// path, so the fallback is never taken.
#[verifier::external_body]
pub(crate) fn quote_json(s: &str) -> (r: String)
    ensures
        r@ == json_quoted(s@),
{
    serde_json::to_string(s).unwrap_or_default()
}

/// Relies on `reqwest::Proxy::http`: a proxy for HTTP traffic, or the error
/// reqwest gives for an address it cannot use.
#[verifier::external_body]
pub(crate) fn http_proxy(url: &str) -> (r: Result<reqwest::Proxy, reqwest::Error>)
    ensures
        r is Ok <==> http_proxy_accepts(url@),
{
    reqwest::Proxy::http(url)
}

/// Relies on `reqwest::Proxy::https`: a proxy for HTTPS traffic, or the error
/// reqwest gives for an address it cannot use.
#[verifier::external_body]
pub(crate) fn https_proxy(url: &str) -> (r: Result<reqwest::Proxy, reqwest::Error>)
    ensures
        r is Ok <==> https_proxy_accepts(url@),
{
    reqwest::Proxy::https(url)
}

/// Relies on `reqwest::Proxy::all`: a proxy for all traffic, or the error
/// reqwest gives for an address it cannot use.
#[verifier::external_body]
pub(crate) fn all_proxy(url: &str) -> (r: Result<reqwest::Proxy, reqwest::Error>)
    ensures
        r is Ok <==> all_proxy_accepts(url@),
{
    reqwest::Proxy::all(url)
}

/// Relies on `reqwest::Proxy::basic_auth`: the same proxy, now sending a
/// basic `Proxy-Authorization` header for `username:password`, in place of
/// any header it had.
pub assume_specification[ reqwest::Proxy::basic_auth ](
    proxy: reqwest::Proxy,
    username: &str,
    password: &str,
) -> (r: reqwest::Proxy)
    ensures
        proxy_basic_auth(r) == Some(username@ + ":"@ + password@),
;

/// Relies on the `Display` impl of `reqwest::Error`: the text that reqwest
/// gives of the error, which always begins with the name of its kind
/// ("builder error", "error sending request", ...).
#[verifier::external_body]
pub(crate) fn error_text(e: &reqwest::Error) -> (r: String)
    ensures
        r@.len() > 0,
        transport_fault_text(r@),
{
    e.to_string()
}

/// Relies on the `Debug` impl of `reqwest::Error`: a description of the error.
#[verifier::external_body]
pub(crate) fn error_details(e: &reqwest::Error) -> (r: String) {
    format!("{:?}", e)
}

} // verus!
