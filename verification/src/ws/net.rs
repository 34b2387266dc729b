//! The connector that dials the websocket proxy from a native process.

use vstd::prelude::*;
use crate::address::{url_parse, url_with_query, WsUrl};
use crate::connector::{
    clone_opt, connect_parse_error, with_domain, connect_parse_message, domain_or_empty, ConnectorView,
};
use crate::text::opt_view;

verus! {

/// The query that tells the proxy which cluster address to open, with the
/// domain and the token where the connector has them.
pub open spec fn ws_query(
    domain: Option<Seq<char>>,
    token: Option<Seq<char>>,
    addr: Seq<char>,
) -> Seq<char> {
    match (domain, token) {
        (Some(d), Some(t)) => "token="@ + t + "&domain="@ + d + "&addr="@ + addr,
        (Some(d), None) => "domain="@ + d + "&addr="@ + addr,
        (None, Some(t)) => "token="@ + t + "&addr="@ + addr,
        (None, None) => "addr="@ + addr,
    }
}

/// Whatever the domain and token, the query ends with the cluster address
/// the proxy is asked to open.
pub proof fn law_query_ends_with_addr(
    domain: Option<Seq<char>>,
    token: Option<Seq<char>>,
    addr: Seq<char>,
)
    ensures
        ({
            let q = ws_query(domain, token, addr);
            &&& q.len() >= addr.len()
            &&& q.subrange(q.len() - addr.len(), q.len() as int) == addr
        }),
{
    let q = ws_query(domain, token, addr);
    assert(q.subrange(q.len() - addr.len(), q.len() as int) =~= addr);
}

/// The query carries the connector's token and domain verbatim, each in its
/// own field: with a token `t` it begins `token=` followed by all of `t` and
/// then `&`; with a domain `d`, the `domain=` field holds all of `d`,
/// followed by `&`; and it always ends with `addr=` and the full address.
pub proof fn law_query_carries_fields_verbatim(
    domain: Option<Seq<char>>,
    token: Option<Seq<char>>,
    addr: Seq<char>,
)
    ensures
        ({
            let q = ws_query(domain, token, addr);
            &&& token matches Some(t) ==> {
                &&& q.len() > 6int + t.len()
                &&& q.subrange(0, 6) == "token="@
                &&& q.subrange(6, 6int + t.len()) == t
                &&& q[6int + t.len()] == '&'
            }
            &&& token is None ==> !(q.len() >= 6 && q.subrange(0, 6) == "token="@)
            &&& domain matches Some(d) ==> {
                let k = match token {
                    Some(t) => 6int + t.len() + 8,
                    None => 7int,
                };
                &&& q.len() > k + d.len()
                &&& q.subrange(k - 7, k) == "domain="@
                &&& q.subrange(k, k + d.len()) == d
                &&& q[k + d.len()] == '&'
            }
            &&& q.len() >= addr.len() + 5
            &&& q.subrange(q.len() - addr.len() - 5, q.len() - addr.len()) == "addr="@
            &&& q.subrange(q.len() - addr.len(), q.len() as int) == addr
        }),
{
    reveal_strlit("token=");
    reveal_strlit("&domain=");
    reveal_strlit("domain=");
    reveal_strlit("&addr=");
    reveal_strlit("addr=");
    let q = ws_query(domain, token, addr);
    let n = q.len();
    assert(q.subrange(n - addr.len(), n as int) =~= addr);
    assert(q.subrange(n - addr.len() - 5, n - addr.len()) =~= "addr="@);
    match (domain, token) {
        (Some(d), Some(t)) => {
            assert(q.subrange(0, 6) =~= "token="@);
            assert(q.subrange(6, 6int + t.len()) =~= t);
            assert(q[6int + t.len()] == "&domain="@[0]);
            let k = 6int + t.len() + 8;
            assert(q.subrange(k - 7, k) =~= "domain="@);
            assert(q.subrange(k, k + d.len()) =~= d);
            assert(q[k + d.len()] == "&addr="@[0]);
        },
        (Some(d), None) => {
            assert(q[0] == 'd');
            if q.len() >= 6 {
                assert(q.subrange(0, 6)[0] == 'd');
            }
            assert(q.subrange(0, 7) =~= "domain="@);
            assert(q.subrange(7, 7int + d.len()) =~= d);
            assert(q[7int + d.len()] == "&addr="@[0]);
        },
        (None, Some(t)) => {
            assert(q.subrange(0, 6) =~= "token="@);
            assert(q.subrange(6, 6int + t.len()) =~= t);
            assert(q[6int + t.len()] == "&addr="@[0]);
        },
        (None, None) => {
            assert(q[0] == 'a');
            if q.len() >= 6 {
                assert(q.subrange(0, 6)[0] == 'a');
            }
        },
    }
}

/// Dials the Fluvio websocket proxy at `url`, optionally bound to a domain
/// and carrying an access token.
#[derive(Clone)]
pub struct FluvioWebsocketConnector {
    url: String,
    domain: Option<String>,
    token: Option<String>,
}

impl View for FluvioWebsocketConnector {
    type V = ConnectorView;

    closed spec fn view(&self) -> ConnectorView {
        ConnectorView { url: self.url@, domain: opt_view(self.domain), token: opt_view(self.token) }
    }
}

impl Default for FluvioWebsocketConnector {
    fn default() -> (r: Self)
        ensures
            r@ == (ConnectorView { url: Seq::empty(), domain: None, token: None }),
    {
        FluvioWebsocketConnector { url: String::new(), domain: None, token: None }
    }
}

impl FluvioWebsocketConnector {
    /// A connector for the proxy at `url`.
    pub fn new(url: String, token: Option<String>, domain: Option<String>) -> (r: Self)
        ensures
            r@ == (ConnectorView { url: url@, domain: opt_view(domain), token: opt_view(token) }),
    {
        FluvioWebsocketConnector { url, domain, token }
    }

    /// The query string of a connection to the cluster address `addr`.
    fn query_for(&self, addr: &str) -> (r: String)
        ensures
            r@ == ws_query(self@.domain, self@.token, addr@),
    {
        let mut q = String::new();
        match (&self.domain, &self.token) {
            (Some(domain), Some(token)) => {
                q.append("token=");
                q.append(token.as_str());
                q.append("&domain=");
                q.append(domain.as_str());
                q.append("&addr=");
            },
            (Some(domain), None) => {
                q.append("domain=");
                q.append(domain.as_str());
                q.append("&addr=");
            },
            (None, Some(token)) => {
                q.append("token=");
                q.append(token.as_str());
                q.append("&addr=");
            },
            (None, None) => {
                q.append("addr=");
            },
        }
        q.append(addr);
        q
    }

    /// The URL a connection to the cluster address `addr` opens: the proxy
    /// URL with `ws_query` as its query. Fails with the I/O message of
    /// `connect_parse_error` where the proxy URL does not parse.
    pub fn connect_url(&self, addr: &str) -> (r: Result<WsUrl, String>)
        ensures
            match url_parse(self@.url) {
                Ok(base) => r matches Ok(u) && u@ == url_with_query(
                    base,
                    Some(ws_query(self@.domain, self@.token, addr@)),
                ),
                Err(e) => r matches Err(m) && m@ == connect_parse_error(self@.url, e),
            },
    {
        match WsUrl::parse(self.url.as_str()) {
            Ok(mut url) => {
                let q = self.query_for(addr);
                url.set_query(Some(q.as_str()));
                Ok(url)
            },
            Err(e) => Err(connect_parse_message(self.url.as_str(), e.as_str())),
        }
    }

    /// The same connector bound to `domain`.
    pub fn new_domain(&self, domain: String) -> (r: Self)
        ensures
            r@ == with_domain(self@, domain@),
    {
        Self::new(self.url.clone(), clone_opt(&self.token), Some(domain))
    }

    /// The domain this connector is bound to, or the empty string.
    pub fn domain(&self) -> (r: &str)
        ensures
            r@ == domain_or_empty(self@.domain),
    {
        match &self.domain {
            Some(domain) => domain.as_str(),
            None => "",
        }
    }
}

} // verus!
