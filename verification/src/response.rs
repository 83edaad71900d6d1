//! Turning the outcome of navigation into the answer to the visitor.

use crate::registry::{parse_sites, ring_of, Member};
use crate::uri::outcome;
use vstd::prelude::*;
use vstd::string::*;

verus! {

/// The status of an answer that sends the visitor on: 303, See Other.
pub const SEE_OTHER: u16 = 303;

/// The status of an answer that reports a failure: 400, Bad Request.
pub const BAD_REQUEST: u16 = 400;

/// How the body of a redirect begins, before the destination.
pub const REFERRING_TO: &'static str = "Referring to ";

/// What stands in the body of a redirect between the destination and the
/// list of all member sites.
pub const FULL_SITE_LIST: &'static str = "\nFull site list: ";

/// The answer to a request: its status, the `Location` header of a redirect,
/// and the body.
pub struct Response {
    pub status: u16,
    pub location: Option<String>,
    pub body: String,
}

/// An answer as a plain value.
pub struct ResponseView {
    pub status: int,
    pub location: Option<Seq<char>>,
    pub body: Seq<char>,
}

impl View for Response {
    type V = ResponseView;

    open spec fn view(&self) -> ResponseView {
        ResponseView {
            status: self.status as int,
            location: match self.location {
                Some(uri) => Some(uri@),
                None => None,
            },
            body: self.body@,
        }
    }
}

/// How Rust's pretty debug format, `{:#?}`, prints a list of texts.
pub uninterp spec fn pretty_list(items: Seq<Seq<char>>) -> Seq<char>;

/// Formats the list with `format!` and `{:#?}`, the pretty debug format of
/// the standard library. Nothing is proved of the printed text: the contract
/// only gives it the name [`pretty_list`], a function of the texts listed.
#[verifier::external_body]
fn print_list(items: &Vec<&str>) -> (r: String)
    ensures
        r@ == pretty_list(items.deep_view()),
{
    format!("{:#?}", items)
}

/// The URIs of the members of a ring, in the order of the ring.
pub open spec fn uris_of(ring: Seq<Member>) -> Seq<Seq<char>> {
    ring.map_values(|member: Member| member.1)
}

/// The body of a redirect to `destination`: it names the destination and
/// lists the URIs of all members of the ring.
pub open spec fn redirect_body(destination: Seq<char>, ring: Seq<Member>) -> Seq<char> {
    REFERRING_TO@ + destination + FULL_SITE_LIST@ + pretty_list(uris_of(ring))
}

/// The answer that an outcome of navigation calls for: a redirect to the
/// destination, or a client error that carries the failure's message.
pub open spec fn response_for(site: Result<Seq<char>, Seq<char>>, ring: Seq<Member>) -> ResponseView {
    match site {
        Ok(destination) => ResponseView {
            status: SEE_OTHER as int,
            location: Some(destination),
            body: redirect_body(destination, ring),
        },
        Err(message) => ResponseView {
            status: BAD_REQUEST as int,
            location: None,
            body: message,
        },
    }
}

/// Builds the answer to the visitor.
///
/// A destination gives status 303 with the destination in `Location`, and a
/// body that names it and lists the member sites read from `sites`. A
/// failure gives status 400 with the failure's message as the body.
pub fn build_response(site: Result<String, String>, sites: &[String]) -> (response: Response)
    ensures
        response@ == response_for(outcome(site), ring_of(sites.deep_view())),
        site is Ok ==> response.status == SEE_OTHER,
        site is Err ==> response.status == BAD_REQUEST,
{
    match site {
        Ok(destination) => {
            let ring = parse_sites(sites);
            let mut uris: Vec<&str> = Vec::new();
            let mut i: usize = 0;
            while i < ring.len()
                invariant
                    i <= ring.len(),
                    uris.deep_view() == uris_of(ring.deep_view()).take(i as int),
                decreases ring.len() - i,
            {
                let ghost before = uris.deep_view();
                uris.push(ring[i].1);
                proof {
                    assert(uris.deep_view() == before.push(ring[i as int].1@));
                    assert(uris_of(ring.deep_view()).take(i + 1) == uris_of(
                        ring.deep_view(),
                    ).take(i as int).push(ring[i as int].1@));
                }
                i += 1;
            }
            assert(uris.deep_view() == uris_of(ring.deep_view()));
            let list = print_list(&uris);
            let mut body = String::from_str(REFERRING_TO);
            body.append(destination.as_str());
            body.append(FULL_SITE_LIST);
            body.append(list.as_str());
            Response { status: SEE_OTHER, location: Some(destination), body }
        },
        Err(message) => Response { status: BAD_REQUEST, location: None, body: message },
    }
}

} // verus!
