//! Finding the referer of a request: in its query parameters first, then in
//! its headers.

use crate::messages::{HEADER_NOT_ASCII, NO_REFERER};
use crate::uri::{host_of, outcome, parse_uri_host};
use lambda_http::aws_lambda_events::query_map::QueryMap;
use lambda_http::http::header::{HeaderMap, HeaderValue, ToStrError, REFERER};
use vstd::prelude::*;
use vstd::string::*;

verus! {

/// The query parameters of a request, as the `query_map` crate holds them.
#[verifier::external_type_specification]
#[verifier::external_body]
pub struct ExQueryMap(QueryMap);

/// The headers of a request, as the `http` crate holds them.
#[verifier::external_type_specification]
#[verifier::external_body]
#[verifier::reject_recursive_types(T)]
pub struct ExHeaderMap<T>(HeaderMap<T>);

/// The value of one header, as the `http` crate holds it.
#[verifier::external_type_specification]
#[verifier::external_body]
pub struct ExHeaderValue(HeaderValue);

/// The error with which the `http` crate refuses to read a header value as
/// text.
#[verifier::external_type_specification]
#[verifier::external_body]
pub struct ExToStrError(ToStrError);

/// What a query map holds: under each parameter's name the parameter's
/// values, in their order.
pub uninterp spec fn query_values(query: QueryMap) -> Map<Seq<char>, Seq<Seq<char>>>;

/// What a header map holds: under each header's name, in lower case, the
/// bytes of the header's values, in the order in which they were added.
pub uninterp spec fn header_values(headers: HeaderMap) -> Map<Seq<char>, Seq<Seq<u8>>>;

/// The bytes that a header value holds.
pub uninterp spec fn value_bytes(value: HeaderValue) -> Seq<u8>;

/// The first of the values that stand under `name`, if there is one.
pub open spec fn first_value<V>(entries: Map<Seq<char>, Seq<V>>, name: Seq<char>) -> Option<V> {
    if entries.contains_key(name) && entries[name].len() > 0 {
        Some(entries[name][0])
    } else {
        None
    }
}

/// The name under which a header map holds the `Referer` header.
pub open spec fn referer_header_name() -> Seq<char> {
    "referer"@
}

/// Whether a byte of a header value is visible ASCII: a printable character,
/// a blank or a tab.
pub open spec fn is_visible(byte: u8) -> bool {
    32 <= byte < 127 || byte == 9
}

/// Whether a header value reads as text: all of its bytes are visible ASCII.
pub open spec fn is_text(bytes: Seq<u8>) -> bool {
    forall|i: int| 0 <= i < bytes.len() ==> is_visible(#[trigger] bytes[i])
}

/// The text that ASCII bytes spell.
pub open spec fn text_of(bytes: Seq<u8>) -> Seq<char> {
    bytes.map_values(|byte: u8| byte as char)
}

/// Calls `QueryMap::first` of the `query_map` crate, which looks `name` up
/// in the map and hands out the first of the values under it: `None` where
/// the map has no such name, or no value under it.
#[verifier::external_body]
fn query_first<'a>(query: &'a QueryMap, name: &str) -> (r: Option<&'a str>)
    ensures
        first_value(query_values(*query), name@) == match r {
            Some(value) => Some(value@),
            None => None,
        },
{
    query.first(name)
}

/// Calls `HeaderMap::get` of the `http` crate with its constant `REFERER`,
/// the header name `referer`: it hands out the first of the values that the
/// map holds under that name, `None` where it holds none.
#[verifier::external_body]
fn referer_header<'a>(headers: &'a HeaderMap) -> (r: Option<&'a HeaderValue>)
    ensures
        first_value(header_values(*headers), referer_header_name()) == match r {
            Some(value) => Some(value_bytes(*value)),
            None => None,
        },
{
    headers.get(REFERER)
}

/// Calls `HeaderValue::to_str` of the `http` crate, which yields the value
/// as text if all of its bytes are visible ASCII, each byte then being one
/// character, and fails otherwise.
#[verifier::external_body]
fn header_text(value: &HeaderValue) -> (r: Result<String, ToStrError>)
    ensures
        r is Ok <==> is_text(value_bytes(*value)),
        r matches Ok(text) ==> text@ == text_of(value_bytes(*value)),
{
    value.to_str().map(str::to_owned)
}

/// What the resolver reads of an incoming request: its query parameters and
/// its headers.
pub struct Request {
    pub query: QueryMap,
    pub headers: HeaderMap,
}

/// The referer that the query parameters name: the first value of `Referer`
/// and, where there is none, the first value of `referer`.
pub open spec fn referer_parameter(query: Map<Seq<char>, Seq<Seq<char>>>) -> Option<Seq<char>> {
    match first_value(query, "Referer"@) {
        Some(text) => Some(text),
        None => first_value(query, "referer"@),
    }
}

/// The host of the referer that the headers name. A value that is no text is
/// refused with [`HEADER_NOT_ASCII`], and a request without the header with
/// [`NO_REFERER`].
pub open spec fn header_referer(headers: Map<Seq<char>, Seq<Seq<u8>>>) -> Result<
    Seq<char>,
    Seq<char>,
> {
    match first_value(headers, referer_header_name()) {
        None => Err(NO_REFERER@),
        Some(bytes) => if is_text(bytes) {
            host_of(text_of(bytes))
        } else {
            Err(HEADER_NOT_ASCII@)
        },
    }
}

/// The host of the referer of a request. A query parameter, once present,
/// decides alone; the header is read only where there is no such parameter.
pub open spec fn referer_of(
    query: Map<Seq<char>, Seq<Seq<char>>>,
    headers: Map<Seq<char>, Seq<Seq<u8>>>,
) -> Result<Seq<char>, Seq<char>> {
    match referer_parameter(query) {
        Some(text) => host_of(text),
        None => header_referer(headers),
    }
}

impl Request {
    /// The host of the referer of this request, or the reason why none was
    /// found.
    pub open spec fn referer(self) -> Result<Seq<char>, Seq<char>> {
        referer_of(query_values(self.query), header_values(self.headers))
    }
}

/// Resolves the host of the page that sent the visitor.
///
/// The query parameter `Referer`, or else `referer`, is read first. Where
/// one is present its host is the answer, and a parameter that cannot be
/// read as a URI with a host fails the request, whatever the headers say.
/// Only a request without such a parameter is resolved by its `Referer`
/// header.
pub fn extract_referrer(req: Request) -> (r: Result<String, String>)
    ensures
        outcome(r) == req.referer(),
        referer_parameter(query_values(req.query)) matches Some(text) ==> outcome(r) == host_of(
            text,
        ),
        referer_parameter(query_values(req.query)) matches Some(text) && host_of(text) is Err
            ==> r is Err,
        referer_parameter(query_values(req.query)) is None ==> outcome(r) == header_referer(
            header_values(req.headers),
        ),
{
    let parameter = match query_first(&req.query, "Referer") {
        Some(text) => Some(text),
        None => query_first(&req.query, "referer"),
    };
    match parameter {
        Some(text) => parse_uri_host(text),
        None => match referer_header(&req.headers) {
            None => Err(String::from_str(NO_REFERER)),
            Some(value) => match header_text(value) {
                Ok(text) => parse_uri_host(text.as_str()),
                Err(_) => Err(String::from_str(HEADER_NOT_ASCII)),
            },
        },
    }
}

} // verus!
