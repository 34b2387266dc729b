//! Where the browser client finds the websocket proxy: URLs derived from the
//! page's own location.

use vstd::prelude::*;
use crate::address::{parse_uri, uri_parse, url_outcome, url_parse, url_with_path, url_with_scheme, WsUrl};
use crate::text::join2;

verus! {

/// The page location with its path replaced, or the parse error's message.
pub open spec fn absolute_url_spec(location: Seq<char>, path: Seq<char>) -> Result<Seq<char>, Seq<char>> {
    match url_parse(location) {
        Ok(u) => Ok(url_with_path(u, path)),
        Err(e) => Err("failed to parse url: "@ + e),
    }
}

/// The URL of the proxy served beside the page at `location`: the path
/// `/ws/` (as `http::Uri` displays it) on the `ws` scheme.
pub open spec fn local_websocket_url_spec(location: Seq<char>) -> Result<Seq<char>, Seq<char>> {
    match uri_parse("/ws/"@) {
        Err(e) => Err(e),
        Ok(path) => match absolute_url_spec(location, path) {
            Err(e) => Err(e),
            Ok(u) => match url_with_scheme(u, "ws"@) {
                Some(s) => Ok(s),
                None => Err("could not set url scheme: ()"@),
            },
        },
    }
}

/// Every location that parses is given the requested path, whatever path it
/// had: the result is the parsed location with its path replaced, and only
/// a location that does not parse is refused. So the proxy URL beside any
/// page is the page's URL with the path `/ws/` (as `http::Uri` gives it) on
/// the `ws` scheme, wherever the url crate accepts that scheme.
pub proof fn law_path_always_replaced(location: Seq<char>, path: Seq<char>)
    ensures
        url_parse(location) matches Ok(u) ==> absolute_url_spec(location, path) == Ok::<
            Seq<char>,
            Seq<char>,
        >(url_with_path(u, path)),
        url_parse(location) is Err <==> absolute_url_spec(location, path) is Err,
        ({
            &&& uri_parse("/ws/"@) matches Ok(p)
            &&& url_parse(location) matches Ok(u)
            &&& url_with_scheme(url_with_path(u, p), "ws"@) matches Some(s)
        }) ==> local_websocket_url_spec(location) == Ok::<Seq<char>, Seq<char>>(
            url_with_scheme(
                url_with_path(url_parse(location)->Ok_0, uri_parse("/ws/"@)->Ok_0),
                "ws"@,
            )->Some_0,
        ),
{
}

/// The page location with its path replaced by `path`.
pub(crate) fn absolute_url_with_path(location: &str, path: &str) -> (r: Result<WsUrl, String>)
    ensures
        url_outcome(r) == absolute_url_spec(location@, path@),
        url_parse(location@) matches Ok(u) ==> (r matches Ok(w) && w@ == url_with_path(u, path@)),
        url_parse(location@) is Err <==> r is Err,
{
    match WsUrl::parse(location) {
        Ok(mut url) => {
            url.set_path(path);
            Ok(url)
        },
        Err(e) => Err(join2("failed to parse url: ", e.as_str())),
    }
}

/// The websocket URL of the proxy that serves the page at `location`.
pub fn local_websocket_url(location: &str) -> (r: Result<WsUrl, String>)
    ensures
        url_outcome(r) == local_websocket_url_spec(location@),
        ({
            &&& uri_parse("/ws/"@) matches Ok(p)
            &&& url_parse(location@) matches Ok(u)
            &&& url_with_scheme(url_with_path(u, p), "ws"@) matches Some(s)
        }) ==> (r matches Ok(w) && w@ == url_with_scheme(
            url_with_path(url_parse(location@)->Ok_0, uri_parse("/ws/"@)->Ok_0),
            "ws"@,
        )->Some_0),
{
    let path = match parse_uri("/ws/") {
        Ok(p) => p,
        Err(e) => {
            return Err(e);
        },
    };
    let mut url = match absolute_url_with_path(location, path.as_str()) {
        Ok(u) => u,
        Err(e) => {
            return Err(e);
        },
    };
    match url.set_scheme("ws") {
        Ok(()) => Ok(url),
        Err(()) => Err(String::from_str("could not set url scheme: ()")),
    }
}

/// The page's origin URL, which must parse.
pub fn origin(location: &str) -> (r: WsUrl)
    requires
        url_parse(location@) is Ok,
    ensures
        url_parse(location@) == Ok::<Seq<char>, Seq<char>>(r@),
{
    match WsUrl::parse(location) {
        Ok(u) => u,
        Err(_) => vstd::pervasive::unreached(),
    }
}

/// The page's origin URL where the location parses, and `None` where it
/// does not.
pub fn checked_origin(location: &str) -> (r: Option<WsUrl>)
    ensures
        match r {
            Some(u) => url_parse(location@) == Ok::<Seq<char>, Seq<char>>(u@),
            None => url_parse(location@) is Err,
        },
{
    match WsUrl::parse(location) {
        Ok(_) => Some(origin(location)),
        Err(_) => None,
    }
}

} // verus!
