use fluvio_web::address::WsUrl;
use fluvio_web::ws::client::FluvioWs;
use fluvio_web::ws::net::FluvioWebsocketConnector as NativeConnector;
use fluvio_web::web::net::FluvioWebsocketConnector as BrowserConnector;

const PROXY: &str = "ws://127.0.0.1:8000/ws/";

#[test]
fn native_query_with_domain_and_token() {
    let c = NativeConnector::new(PROXY.to_string(), Some("tok".to_string()), Some("dom".to_string()));
    let url = c.connect_url("localhost:9003").unwrap();
    assert_eq!(url.as_str(), "ws://127.0.0.1:8000/ws/?token=tok&domain=dom&addr=localhost:9003");
}

#[test]
fn native_query_with_domain_only() {
    let c = NativeConnector::new(PROXY.to_string(), None, Some("dom".to_string()));
    let url = c.connect_url("spu:9005").unwrap();
    assert_eq!(url.as_str(), "ws://127.0.0.1:8000/ws/?domain=dom&addr=spu:9005");
}

#[test]
fn native_query_with_token_only() {
    let c = NativeConnector::new(PROXY.to_string(), Some("tok".to_string()), None);
    let url = c.connect_url("sc:9003").unwrap();
    assert_eq!(url.as_str(), "ws://127.0.0.1:8000/ws/?token=tok&addr=sc:9003");
}

#[test]
fn native_query_with_address_only() {
    let c = NativeConnector::new(PROXY.to_string(), None, None);
    let url = c.connect_url("sc:9003").unwrap();
    assert_eq!(url.as_str(), "ws://127.0.0.1:8000/ws/?addr=sc:9003");
}

#[test]
fn native_query_replaces_existing_query() {
    let c = NativeConnector::new("ws://h/ws/?old=1".to_string(), None, None);
    assert_eq!(c.connect_url("a:1").unwrap().as_str(), "ws://h/ws/?addr=a:1");
}

#[test]
fn native_connector_rejects_bad_url() {
    let c = NativeConnector::new("nope".to_string(), None, None);
    assert_eq!(
        c.connect_url("a:1").unwrap_err(),
        "Failed to parse URL on connect. URL: nope. Error: relative URL without a base"
    );
}

#[test]
fn native_new_domain_keeps_url_and_token() {
    let c = NativeConnector::new(PROXY.to_string(), Some("tok".to_string()), None);
    assert_eq!(c.domain(), "");
    let d = c.new_domain("spu-1".to_string());
    assert_eq!(d.domain(), "spu-1");
    assert_eq!(
        d.connect_url("x:1").unwrap().as_str(),
        "ws://127.0.0.1:8000/ws/?token=tok&domain=spu-1&addr=x:1"
    );
    let e = d.new_domain("spu-2".to_string());
    assert_eq!(e.domain(), "spu-2");
}

#[test]
fn native_default_has_no_domain() {
    let c = NativeConnector::default();
    assert_eq!(c.domain(), "");
    assert!(c.connect_url("a:1").is_err());
}

#[test]
fn browser_query_only_with_domain() {
    let c = BrowserConnector::new(PROXY.to_string(), Some("tok".to_string()), Some("dom".to_string()));
    assert_eq!(
        c.connect_url("a:1").unwrap().as_str(),
        "ws://127.0.0.1:8000/ws/?token=tok&domain=dom&addr=a:1"
    );
    let no_token = BrowserConnector::new(PROXY.to_string(), None, Some("dom".to_string()));
    assert_eq!(
        no_token.connect_url("a:1").unwrap().as_str(),
        "ws://127.0.0.1:8000/ws/?token=&domain=dom&addr=a:1"
    );
    let no_domain = BrowserConnector::new("ws://h/ws/?keep=1".to_string(), Some("tok".to_string()), None);
    assert_eq!(no_domain.connect_url("a:1").unwrap().as_str(), "ws://h/ws/?keep=1");
}

#[test]
fn browser_connector_rejects_bad_url_and_rebinds_domain() {
    let c = BrowserConnector::new("::".to_string(), None, None);
    assert!(c
        .connect_url("a:1")
        .unwrap_err()
        .starts_with("Failed to parse URL on connect. URL: ::. Error: "));
    let d = BrowserConnector::default().new_domain("dom".to_string());
    assert_eq!(d.domain(), "dom");
}

#[test]
fn native_client_connectors() {
    let url = WsUrl::parse(PROXY).unwrap();
    let plain = FluvioWs::connector(&url);
    assert_eq!(plain.connect_url("a:1").unwrap().as_str(), "ws://127.0.0.1:8000/ws/?addr=a:1");
    let with_token = FluvioWs::connector_with_token(&url, "secret");
    assert_eq!(
        with_token.connect_url("a:1").unwrap().as_str(),
        "ws://127.0.0.1:8000/ws/?token=secret&addr=a:1"
    );
}
