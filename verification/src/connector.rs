//! What the two websocket connectors share: their abstract state and the
//! error they report when their URL does not parse.

use vstd::prelude::*;
use crate::address::{url_host, WsUrl};
use crate::text::{join2, join3, opt_view};

verus! {

/// The abstract state of a websocket connector: the proxy URL it dials,
/// the Fluvio domain it is bound to, and the access token it presents.
pub struct ConnectorView {
    pub url: Seq<char>,
    pub domain: Option<Seq<char>>,
    pub token: Option<Seq<char>>,
}

/// The message of the I/O error a connector raises when its URL does not
/// parse.
pub open spec fn connect_parse_error(url: Seq<char>, err: Seq<char>) -> Seq<char> {
    "Failed to parse URL on connect. URL: "@ + url + ". Error: "@ + err
}

/// The domain a connector reports: its domain, or the empty string.
pub open spec fn domain_or_empty(domain: Option<Seq<char>>) -> Seq<char> {
    match domain {
        Some(d) => d,
        None => ""@,
    }
}

/// The same connector state bound to `domain`.
pub open spec fn with_domain(c: ConnectorView, domain: Seq<char>) -> ConnectorView {
    ConnectorView { url: c.url, domain: Some(domain), token: c.token }
}

/// Binding a connector to a domain keeps its URL and token, makes it report
/// that domain, and replaces any domain it was bound to before.
pub proof fn law_new_domain(c: ConnectorView, d1: Seq<char>, d2: Seq<char>)
    ensures
        with_domain(c, d1).url == c.url,
        with_domain(c, d1).token == c.token,
        domain_or_empty(with_domain(c, d1).domain) == d1,
        with_domain(with_domain(c, d1), d2) == with_domain(c, d2),
{
}

/// Builds the message of `connect_parse_error`.
pub fn connect_parse_message(url: &str, err: &str) -> (r: String)
    ensures
        r@ == connect_parse_error(url@, err@),
{
    let head = join3("Failed to parse URL on connect. URL: ", url, ". Error: ");
    join2(head.as_str(), err)
}

/// The name a client connected through the proxy at `addr` gets: the URL's
/// host, where it has one.
pub fn cluster_name_of(addr: &WsUrl) -> (r: Option<String>)
    ensures
        opt_view(r) == url_host(addr@),
{
    addr.host_str()
}

/// A copy of an optional string.
pub fn clone_opt(o: &Option<String>) -> (r: Option<String>)
    ensures
        opt_view(r) == opt_view(*o),
{
    match o {
        Some(s) => Some(s.clone()),
        None => None,
    }
}

} // verus!
