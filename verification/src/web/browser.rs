//! The browser's Fluvio client: a shared Fluvio handle named after the
//! cluster host it reached.

use vstd::prelude::*;
use vstd::std_specs::cmp::PartialEqSpec;
use std::sync::Arc;
use fluvio::Fluvio;
use crate::address::{url_host, url_query, WsUrl};
use crate::cluster::share;
use crate::connector::{cluster_name_of, ConnectorView};
use crate::text::{join2, opt_view};
use crate::web::net::FluvioWebsocketConnector;

verus! {

/// A Fluvio client reached from the browser. Two clients are equal when they
/// name the same cluster.
#[derive(Clone)]
pub struct FluvioBrowser {
    pub inner: Arc<Fluvio>,
    cluster_name: String,
}

impl FluvioBrowser {
    /// The shared Fluvio handle.
    pub closed spec fn handle(&self) -> Arc<Fluvio> {
        self.inner
    }

    /// The name of the cluster this client reached.
    pub closed spec fn cluster(&self) -> Seq<char> {
        self.cluster_name@
    }

    /// Another pointer to the shared Fluvio handle.
    pub fn inner_clone(&self) -> (r: Arc<Fluvio>)
        ensures
            r == self.handle(),
    {
        share(&self.inner)
    }

    /// The connector a connection to the proxy at `addr` dials: the proxy's
    /// URL, no domain, and the token where there is one.
    pub fn connector(addr: &WsUrl, token: Option<String>) -> (r: FluvioWebsocketConnector)
        ensures
            r@ == (ConnectorView { url: addr@, domain: None, token: opt_view(token) }),
    {
        FluvioWebsocketConnector::new(String::from_str(addr.as_str()), token, None)
    }

    /// The client around a handle connected through the proxy at `addr`,
    /// named after the proxy's host, which the URL must have.
    pub fn connected(inner: Arc<Fluvio>, addr: &WsUrl) -> (r: Self)
        requires
            url_host(addr@) is Some,
        ensures
            r.handle() == inner,
            r.cluster() == url_host(addr@)->0,
    {
        match cluster_name_of(addr) {
            Some(host) => FluvioBrowser { inner, cluster_name: host },
            None => vstd::pervasive::unreached(),
        }
    }

    /// The client around `inner` where the URL `addr` has a host, and `None`
    /// where it has none.
    pub fn try_connected(inner: Arc<Fluvio>, addr: &WsUrl) -> (r: Option<Self>)
        ensures
            match r {
                Some(b) => url_host(addr@) is Some && b.handle() == inner && b.cluster() == url_host(
                    addr@,
                )->0,
                None => url_host(addr@) is None,
            },
    {
        match cluster_name_of(addr) {
            Some(_) => Some(Self::connected(inner, addr)),
            None => None,
        }
    }
}

impl PartialEq for FluvioBrowser {
    fn eq(&self, other: &Self) -> (r: bool) {
        self.cluster_name == other.cluster_name
    }
}

impl vstd::std_specs::cmp::PartialEqSpecImpl for FluvioBrowser {
    open spec fn obeys_eq_spec() -> bool {
        true
    }

    open spec fn eq_spec(&self, other: &Self) -> bool {
        self.cluster() == other.cluster()
    }
}

impl Eq for FluvioBrowser {}

impl From<Arc<Fluvio>> for FluvioBrowser {
    /// A client around a handle whose cluster is not known: it is named
    /// `unknown`.
    fn from(inner: Arc<Fluvio>) -> (r: Self)
        ensures
            r.handle() == inner,
            r.cluster() == "unknown"@,
    {
        FluvioBrowser { inner, cluster_name: String::from_str("unknown") }
    }
}

impl vstd::std_specs::convert::FromSpecImpl<Arc<Fluvio>> for FluvioBrowser {
    open spec fn obeys_from_spec() -> bool {
        false
    }

    closed spec fn from_spec(inner: Arc<Fluvio>) -> Self {
        FluvioBrowser { inner, cluster_name: choose|s: String| #[trigger] s.view() == "unknown"@ }
    }
}

impl core::ops::Deref for FluvioBrowser {
    type Target = Fluvio;

    fn deref(&self) -> (r: &Fluvio)
        ensures
            *r == *self.handle(),
    {
        &*self.inner
    }
}

/// The message of a failed topic listing, around the error's debug text.
pub open spec fn topics_error(e: Seq<char>) -> Seq<char> {
    "failed to get topics: "@ + e
}

/// The topics of a cluster, given what its admin listing returned: the
/// topic names, in listing order, or the listing error's debug text.
pub fn topic_listing(listing: Result<Vec<String>, String>) -> (r: Result<Vec<String>, String>)
    ensures
        match listing {
            Ok(names) => r == Ok::<Vec<String>, String>(names),
            Err(e) => r matches Err(m) && m@ == topics_error(e@),
        },
{
    match listing {
        Ok(names) => Ok(names),
        Err(e) => Err(join2("failed to get topics: ", e.as_str())),
    }
}

/// The query of the proxy URL that carries the connection's token, where the
/// URL has one.
pub fn query_to_parse(addr: &WsUrl) -> (r: Option<String>)
    ensures
        opt_view(r) == url_query(addr@),
{
    addr.query()
}

/// The message of a query that does not parse.
pub open spec fn query_error(e: Seq<char>) -> Seq<char> {
    "Failed to parse query: "@ + e
}

/// The token a connection presents, given what parsing the URL's query gave
/// (`None` where the URL has no query): no query means no token, a parsed
/// query gives its `token` field, and a query that does not parse refuses
/// the connection.
pub fn token_from_query(parsed: Option<Result<Option<String>, String>>) -> (r: Result<
    Option<String>,
    String,
>)
    ensures
        match parsed {
            None => r matches Ok(t) && t is None,
            Some(Ok(t)) => r matches Ok(t2) && opt_view(t2) == opt_view(t),
            Some(Err(e)) => r matches Err(m) && m@ == query_error(e@),
        },
{
    match parsed {
        None => Ok(None),
        Some(Ok(t)) => Ok(t),
        Some(Err(e)) => Err(join2("Failed to parse query: ", e.as_str())),
    }
}

/// Clients compare by cluster name: equality is reflexive, symmetric and
/// transitive, and any two clients whose cluster is not known are equal.
pub proof fn law_equality(a: FluvioBrowser, b: FluvioBrowser, c: FluvioBrowser)
    ensures
        a.eq_spec(&a),
        a.eq_spec(&b) == b.eq_spec(&a),
        a.eq_spec(&b) && b.eq_spec(&c) ==> a.eq_spec(&c),
        a.cluster() == "unknown"@ && b.cluster() == "unknown"@ ==> a.eq_spec(&b),
{
}

} // verus!
