//! The native Fluvio client: a Fluvio handle named after the cluster host it
//! reached through the proxy.

use vstd::prelude::*;
use vstd::std_specs::cmp::PartialEqSpec;
use fluvio::Fluvio;
use crate::address::{url_host, WsUrl};
use crate::connector::{cluster_name_of, ConnectorView};
use crate::ws::net::FluvioWebsocketConnector;

verus! {

/// A Fluvio client reached through the websocket proxy. Two clients are
/// equal when they name the same cluster.
pub struct FluvioWs {
    pub inner: Fluvio,
    cluster_name: String,
}

impl FluvioWs {
    /// The Fluvio handle.
    pub closed spec fn handle(&self) -> Fluvio {
        self.inner
    }

    /// The name of the cluster this client reached.
    pub closed spec fn cluster(&self) -> Seq<char> {
        self.cluster_name@
    }

    /// The connector a connection without a token dials: the proxy's URL,
    /// no domain, no token.
    pub fn connector(addr: &WsUrl) -> (r: FluvioWebsocketConnector)
        ensures
            r@ == (ConnectorView { url: addr@, domain: None, token: None }),
    {
        FluvioWebsocketConnector::new(String::from_str(addr.as_str()), None, None)
    }

    /// The connector a connection with `token` dials.
    pub fn connector_with_token(addr: &WsUrl, token: &str) -> (r: FluvioWebsocketConnector)
        ensures
            r@ == (ConnectorView { url: addr@, domain: None, token: Some(token@) }),
    {
        FluvioWebsocketConnector::new(String::from_str(addr.as_str()), Some(String::from_str(token)), None)
    }

    /// The client around a handle connected through the proxy at `addr`,
    /// named after the proxy's host, which the URL must have.
    pub fn connected(inner: Fluvio, addr: &WsUrl) -> (r: Self)
        requires
            url_host(addr@) is Some,
        ensures
            r.handle() == inner,
            r.cluster() == url_host(addr@)->0,
    {
        match cluster_name_of(addr) {
            Some(host) => FluvioWs { inner, cluster_name: host },
            None => vstd::pervasive::unreached(),
        }
    }

    /// The client around `inner` where the URL `addr` has a host; where it has
    /// none, `inner` is handed back.
    pub fn try_connected(inner: Fluvio, addr: &WsUrl) -> (r: Result<Self, Fluvio>)
        ensures
            match r {
                Ok(c) => url_host(addr@) is Some && c.handle() == inner && c.cluster() == url_host(
                    addr@,
                )->0,
                Err(back) => url_host(addr@) is None && back == inner,
            },
    {
        match cluster_name_of(addr) {
            Some(_) => Ok(Self::connected(inner, addr)),
            None => Err(inner),
        }
    }
}

impl PartialEq for FluvioWs {
    fn eq(&self, other: &Self) -> (r: bool) {
        self.cluster_name == other.cluster_name
    }
}

impl vstd::std_specs::cmp::PartialEqSpecImpl for FluvioWs {
    open spec fn obeys_eq_spec() -> bool {
        true
    }

    open spec fn eq_spec(&self, other: &Self) -> bool {
        self.cluster() == other.cluster()
    }
}

impl Eq for FluvioWs {}

impl From<Fluvio> for FluvioWs {
    /// A client around a handle whose cluster is not known: it is named
    /// `unknown`.
    fn from(inner: Fluvio) -> (r: Self)
        ensures
            r.handle() == inner,
            r.cluster() == "unknown"@,
    {
        FluvioWs { inner, cluster_name: String::from_str("unknown") }
    }
}

impl vstd::std_specs::convert::FromSpecImpl<Fluvio> for FluvioWs {
    open spec fn obeys_from_spec() -> bool {
        false
    }

    closed spec fn from_spec(inner: Fluvio) -> Self {
        FluvioWs { inner, cluster_name: choose|s: String| #[trigger] s.view() == "unknown"@ }
    }
}

impl core::ops::Deref for FluvioWs {
    type Target = Fluvio;

    fn deref(&self) -> (r: &Fluvio)
        ensures
            *r == self.handle(),
    {
        &self.inner
    }
}

/// Clients compare by cluster name: equality is reflexive, symmetric and
/// transitive, and any two clients whose cluster is not known are equal.
pub proof fn law_equality(a: FluvioWs, b: FluvioWs, c: FluvioWs)
    ensures
        a.eq_spec(&a),
        a.eq_spec(&b) == b.eq_spec(&a),
        a.eq_spec(&b) && b.eq_spec(&c) ==> a.eq_spec(&c),
        a.cluster() == "unknown"@ && b.cluster() == "unknown"@ ==> a.eq_spec(&b),
{
}

} // verus!
