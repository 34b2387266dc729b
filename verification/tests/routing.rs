use fluvio_web::address::WsUrl;
use fluvio_web::web::browser::{query_to_parse, token_from_query, topic_listing, FluvioBrowser};
use fluvio_web::web::routing::{checked_origin, local_websocket_url, origin};
use fluvio_web::connector::cluster_name_of;

#[test]
fn local_websocket_url_replaces_path_and_scheme() {
    let url = local_websocket_url("http://localhost:7000/index.html").unwrap();
    assert_eq!(url.as_str(), "ws://localhost:7000/ws/");
}

#[test]
fn local_websocket_url_keeps_query_and_fragment() {
    let url = local_websocket_url("https://dash.example.com/a/b?x=1#top").unwrap();
    assert_eq!(url.as_str(), "ws://dash.example.com/ws/?x=1#top");
}

#[test]
fn local_websocket_url_rejects_unparsable_location() {
    let err = local_websocket_url("not a url").unwrap_err();
    assert_eq!(err, "failed to parse url: relative URL without a base");
}

#[test]
fn local_websocket_url_rejects_location_without_special_scheme() {
    let err = local_websocket_url("mailto:someone@example.com").unwrap_err();
    assert_eq!(err, "could not set url scheme: ()");
}

#[test]
fn origin_parses_location() {
    let url = origin("https://example.com");
    assert_eq!(url.as_str(), "https://example.com/");
}

#[test]
fn checked_origin_refuses_relative_location() {
    assert!(checked_origin("/relative/path").is_none());
    assert_eq!(checked_origin("http://example.com/x").unwrap().as_str(), "http://example.com/x");
}

#[test]
fn parse_normalizes_serialization() {
    let url = WsUrl::parse("HTTP://Example.COM").unwrap();
    assert_eq!(url.as_str(), "http://example.com/");
    assert_eq!(WsUrl::parse("").unwrap_err(), "relative URL without a base");
}

#[test]
fn query_to_parse_reads_the_query() {
    let url = WsUrl::parse("ws://127.0.0.1:8000/ws/?token=abc#frag").unwrap();
    assert_eq!(query_to_parse(&url), Some("token=abc".to_string()));
    let bare = WsUrl::parse("ws://127.0.0.1:8000/ws/").unwrap();
    assert_eq!(query_to_parse(&bare), None);
}

#[test]
fn token_from_query_cases() {
    assert_eq!(token_from_query(None), Ok(None));
    assert_eq!(token_from_query(Some(Ok(None))), Ok(None));
    assert_eq!(token_from_query(Some(Ok(Some("t1".to_string())))), Ok(Some("t1".to_string())));
    assert_eq!(
        token_from_query(Some(Err("bad".to_string()))),
        Err("Failed to parse query: bad".to_string())
    );
}

#[test]
fn cluster_name_is_the_host() {
    let url = WsUrl::parse("ws://cluster.example.com:8000/ws/").unwrap();
    assert_eq!(cluster_name_of(&url), Some("cluster.example.com".to_string()));
    let no_host = WsUrl::parse("data:text/plain,hello").unwrap();
    assert_eq!(cluster_name_of(&no_host), None);
}

#[test]
fn browser_connector_dials_the_address() {
    let url = WsUrl::parse("ws://127.0.0.1:8000/ws/").unwrap();
    let c = FluvioBrowser::connector(&url, Some("tok".to_string()));
    assert_eq!(c.domain(), "");
    // Without a domain the browser connector leaves the proxy URL untouched.
    assert_eq!(c.connect_url("localhost:9003").unwrap().as_str(), "ws://127.0.0.1:8000/ws/");
}

#[test]
fn topic_listing_passes_names_or_wraps_error() {
    assert_eq!(
        topic_listing(Ok(vec!["a".to_string(), "b".to_string()])),
        Ok(vec!["a".to_string(), "b".to_string()])
    );
    assert_eq!(
        topic_listing(Err("Timeout".to_string())),
        Err("failed to get topics: Timeout".to_string())
    );
}
