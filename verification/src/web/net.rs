//! The connector that dials the websocket proxy from a browser.

use vstd::prelude::*;
use crate::address::{url_parse, url_with_query, WsUrl};
use crate::connector::{
    clone_opt, connect_parse_error, with_domain, connect_parse_message, domain_or_empty, ConnectorView,
};
use crate::text::opt_view;

verus! {

/// The query a browser connection sets: only a connector bound to a domain
/// sets one, and then it always names a token, empty where there is none.
pub open spec fn web_query(
    domain: Option<Seq<char>>,
    token: Option<Seq<char>>,
    addr: Seq<char>,
) -> Option<Seq<char>> {
    match domain {
        Some(d) => {
            let t = match token {
                Some(t) => t,
                None => Seq::empty(),
            };
            Some("token="@ + t + "&domain="@ + d + "&addr="@ + addr)
        },
        None => None,
    }
}

/// A browser connector with a domain always sends a query ending with the
/// cluster address; one without a domain leaves the proxy URL untouched.
pub proof fn law_web_query(
    domain: Option<Seq<char>>,
    token: Option<Seq<char>>,
    addr: Seq<char>,
)
    ensures
        domain is None <==> web_query(domain, token, addr) is None,
        web_query(domain, token, addr) matches Some(q) ==> q.len() >= addr.len() && q.subrange(
            q.len() - addr.len(),
            q.len() as int,
        ) == addr,
{
    if let Some(q) = web_query(domain, token, addr) {
        assert(q.subrange(q.len() - addr.len(), q.len() as int) =~= addr);
    }
}

/// A browser connector bound to a domain carries its token verbatim (all of
/// it, or nothing where it has none) right after `token=`, then its domain
/// verbatim after `&domain=`, then `&addr=` and the full address; a
/// connector without a domain sends no query at all.
pub proof fn law_web_query_carries_fields_verbatim(
    domain: Option<Seq<char>>,
    token: Option<Seq<char>>,
    addr: Seq<char>,
)
    ensures
        domain is None ==> web_query(domain, token, addr) is None,
        domain matches Some(d) ==> ({
            let q = web_query(domain, token, addr)->Some_0;
            let tl: int = match token {
                Some(t) => t.len() as int,
                None => 0int,
            };
            &&& web_query(domain, token, addr) is Some
            &&& q.len() == 6 + tl + 8 + d.len() + 6 + addr.len()
            &&& q.subrange(0, 6) == "token="@
            &&& (token matches Some(t) ==> q.subrange(6, 6 + tl) == t)
            &&& q.subrange(6 + tl, 6 + tl + 8) == "&domain="@
            &&& q.subrange(6 + tl + 8, 6 + tl + 8 + d.len()) == d
            &&& q.subrange(6 + tl + 8 + d.len(), 6 + tl + 8 + d.len() + 6) == "&addr="@
            &&& q.subrange(q.len() - addr.len(), q.len() as int) == addr
        }),
{
    reveal_strlit("token=");
    reveal_strlit("&domain=");
    reveal_strlit("&addr=");
    if let Some(d) = domain {
        let q = web_query(domain, token, addr)->Some_0;
        let t = match token {
            Some(t) => t,
            None => Seq::<char>::empty(),
        };
        let tl = t.len() as int;
        assert(q == "token="@ + t + "&domain="@ + d + "&addr="@ + addr);
        assert(q.subrange(0, 6) =~= "token="@);
        assert(q.subrange(6, 6 + tl) =~= t);
        assert(q.subrange(6 + tl, 6 + tl + 8) =~= "&domain="@);
        assert(q.subrange(6 + tl + 8, 6 + tl + 8 + d.len()) =~= d);
        assert(q.subrange(6 + tl + 8 + d.len(), 6 + tl + 8 + d.len() + 6) =~= "&addr="@);
        assert(q.subrange(q.len() - addr.len(), q.len() as int) =~= addr);
    }
}

/// Dials the Fluvio websocket proxy at `url` from a browser, optionally bound
/// to a domain and carrying an access token.
#[derive(Clone)]
pub struct FluvioWebsocketConnector {
    url: String,
    domain: Option<String>,
    token: Option<String>,
}

impl View for FluvioWebsocketConnector {
    type V = ConnectorView;

    closed spec fn view(&self) -> ConnectorView {
        ConnectorView { url: self.url@, domain: opt_view(self.domain), token: opt_view(self.token) }
    }
}

impl Default for FluvioWebsocketConnector {
    fn default() -> (r: Self)
        ensures
            r@ == (ConnectorView { url: Seq::empty(), domain: None, token: None }),
    {
        FluvioWebsocketConnector { url: String::new(), domain: None, token: None }
    }
}

impl FluvioWebsocketConnector {
    /// A connector for the proxy at `url`.
    pub fn new(url: String, token: Option<String>, domain: Option<String>) -> (r: Self)
        ensures
            r@ == (ConnectorView { url: url@, domain: opt_view(domain), token: opt_view(token) }),
    {
        FluvioWebsocketConnector { url, domain, token }
    }

    /// The URL a connection to the cluster address `addr` opens: the proxy
    /// URL, with `web_query` as its query where the connector has a domain.
    /// Fails with the I/O message of `connect_parse_error` where the proxy
    /// URL does not parse.
    pub fn connect_url(&self, addr: &str) -> (r: Result<WsUrl, String>)
        ensures
            match url_parse(self@.url) {
                Ok(base) => r matches Ok(u) && u@ == match web_query(
                    self@.domain,
                    self@.token,
                    addr@,
                ) {
                    Some(q) => url_with_query(base, Some(q)),
                    None => base,
                },
                Err(e) => r matches Err(m) && m@ == connect_parse_error(self@.url, e),
            },
    {
        match WsUrl::parse(self.url.as_str()) {
            Ok(mut url) => {
                match &self.domain {
                    Some(domain) => {
                        let mut q = String::new();
                        q.append("token=");
                        match &self.token {
                            Some(token) => q.append(token.as_str()),
                            None => {},
                        }
                        q.append("&domain=");
                        q.append(domain.as_str());
                        q.append("&addr=");
                        q.append(addr);
                        url.set_query(Some(q.as_str()));
                    },
                    None => {},
                }
                Ok(url)
            },
            Err(e) => Err(connect_parse_message(self.url.as_str(), e.as_str())),
        }
    }

    /// The same connector bound to `domain`.
    pub fn new_domain(&self, domain: String) -> (r: Self)
        ensures
            r@ == with_domain(self@, domain@),
    {
        Self::new(self.url.clone(), clone_opt(&self.token), Some(domain))
    }

    /// The domain this connector is bound to, or the empty string.
    pub fn domain(&self) -> (r: &str)
        ensures
            r@ == domain_or_empty(self@.domain),
    {
        match &self.domain {
            Some(domain) => domain.as_str(),
            None => "",
        }
    }
}

} // verus!
