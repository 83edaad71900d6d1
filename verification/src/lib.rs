//! A webring redirector's core: it resolves the host of the page a visitor
//! came from, finds that host in the ordered ring of member sites and names
//! the site a step further along the ring.

pub mod config;
pub mod messages;
pub mod navigate;
pub mod registry;
pub mod request;
pub mod response;
pub mod uri;

pub use crate::config::{non_empty_lines, sitelist};
pub use crate::navigate::{calc_destination, destination_at, find_host};
pub use crate::registry::parse_sites;
pub use crate::request::{extract_referrer, Request};
pub use crate::response::{build_response, Response};
pub use crate::uri::parse_uri_host;
