//! The texts by which failures are reported.

use vstd::prelude::*;

verus! {

/// The text could not be read as a URI.
pub const INVALID_URI: &'static str = "Invalid uri";

/// The text is a URI, but names no host.
pub const NO_HOST: &'static str = "No host in referer";

/// The request carries no `Referer` query parameter.
pub const NO_QUERY_PARAMETER: &'static str = "No Referer query parameter";

/// The request carries no `Referer` header.
pub const NO_HEADER: &'static str = "No referer header";

/// The request names its referer neither in a header nor in a query parameter.
pub const NO_REFERER: &'static str = "No referer header or query parameter";

/// The `Referer` header holds bytes that are no visible ASCII.
pub const HEADER_NOT_ASCII: &'static str = "Header value not ASCII";

/// The referer's host is none of the ring's hosts.
pub const NOT_IN_RING: &'static str = "Referer not in hosts list!";

/// The ring has no member to go to.
pub const NO_NEXT_SITE: &'static str = "No next site";

} // verus!
