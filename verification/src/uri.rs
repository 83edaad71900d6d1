//! Reading the host out of a URI.

use crate::messages::{INVALID_URI, NO_HOST};
use lambda_http::http::uri::InvalidUri;
use lambda_http::http::Uri;
use vstd::prelude::*;
use vstd::string::*;

verus! {

/// The error with which the `http` crate refuses a text as a URI.
#[verifier::external_type_specification]
#[verifier::external_body]
pub struct ExInvalidUri(InvalidUri);

/// What the `http` crate reads in a text: `None` where it refuses the text as
/// a URI, `Some(None)` where the URI has no authority, and otherwise the host
/// of its authority.
pub uninterp spec fn uri_host(text: Seq<char>) -> Option<Option<Seq<char>>>;

/// Parses `text` with `Uri::from_str` of the `http` crate and asks the URI
/// for its `Uri::host`. Nothing is proved of the parser: the contract only
/// gives its answer the name [`uri_host`], which makes it a function of the
/// text alone.
#[verifier::external_body]
fn read_uri_host(text: &str) -> (r: Result<Option<String>, InvalidUri>)
    ensures
        uri_host(text@) == match r {
            Ok(Some(host)) => Some(Some(host@)),
            Ok(None) => Some(None),
            Err(_) => None,
        },
{
    let uri = text.parse::<Uri>()?;
    Ok(uri.host().map(str::to_owned))
}

/// The views of a result whose two sides are both texts.
pub open spec fn outcome(r: Result<String, String>) -> Result<Seq<char>, Seq<char>> {
    match r {
        Ok(text) => Ok(text@),
        Err(message) => Err(message@),
    }
}

/// The host that a text stands for: the non-empty host of the URI it spells,
/// or the reason why it has none.
pub open spec fn host_of(text: Seq<char>) -> Result<Seq<char>, Seq<char>> {
    match uri_host(text) {
        None => Err(INVALID_URI@),
        Some(None) => Err(NO_HOST@),
        Some(Some(host)) => if host.len() == 0 {
            Err(NO_HOST@)
        } else {
            Ok(host)
        },
    }
}

/// Reads `s` as a URI and returns its host, verbatim. A text that is no URI
/// is refused with [`INVALID_URI`], a URI without a host, or with an empty
/// one, with [`NO_HOST`].
pub fn parse_uri_host(s: &str) -> (r: Result<String, String>)
    ensures
        outcome(r) == host_of(s@),
{
    match read_uri_host(s) {
        Err(_) => Err(String::from_str(INVALID_URI)),
        Ok(None) => Err(String::from_str(NO_HOST)),
        Ok(Some(host)) => {
            if host.as_str().is_empty() {
                Err(String::from_str(NO_HOST))
            } else {
                Ok(host)
            }
        },
    }
}

} // verus!
