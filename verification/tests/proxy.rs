use fluvio_web::proxy::endpoint::{fluvio_domain_endpoint, fluvio_sc_endpoint, EndpointError};
use fluvio_web::proxy::session::{
    pump_step, read_buffer, PumpAction, PumpEvent, RegisterQuery, READ_BUFFER_SIZE,
    WRITE_QUEUE_CAPACITY, PING_INTERVAL_SECS,
};
use fluvio_web::proxy::stream::{handle_frame, ClientFrame, CloseReason, StreamAction, CLOSE_INVALID};

fn profile(ep: &str) -> Result<Option<String>, String> {
    Ok(Some(ep.to_string()))
}

#[test]
fn sc_endpoint_from_profile() {
    assert_eq!(fluvio_sc_endpoint(profile("localhost:9003")).ok(), Some("localhost:9003".to_string()));
    match fluvio_sc_endpoint(Ok(None)) {
        Err(e) => {
            assert_eq!(e.message(), "cluster config not found for current profile");
            assert_eq!(e.status(), 500);
        }
        Ok(_) => panic!("expected an error"),
    }
    match fluvio_sc_endpoint(Err("no such file".to_string())) {
        Err(EndpointError::Config(m)) => assert_eq!(m, "no such file"),
        _ => panic!("expected a config error"),
    }
}

#[test]
fn domain_endpoint_prefers_client_address() {
    let r = fluvio_domain_endpoint(Some("spu:9010".to_string()), profile("sc:9003"));
    assert_eq!(r.ok(), Some("spu:9010".to_string()));
    let r = fluvio_domain_endpoint(None, profile("sc:9003"));
    assert_eq!(r.ok(), Some("sc:9003".to_string()));
}

#[test]
fn domain_endpoint_needs_a_profile_even_with_address() {
    let r = fluvio_domain_endpoint(Some("spu:9010".to_string()), Ok(None));
    assert!(matches!(r, Err(EndpointError::NoCluster)));
    let r = fluvio_domain_endpoint(Some("spu:9010".to_string()), Err("io".to_string()));
    match r {
        Err(e) => {
            assert_eq!(e.message(), "io");
            assert_eq!(e.status(), 500);
        }
        Ok(_) => panic!("expected an error"),
    }
}

#[test]
fn binary_frames_are_forwarded() {
    match handle_frame(ClientFrame::Binary(vec![1, 2, 3])) {
        StreamAction::Forward(b) => assert_eq!(b, vec![1, 2, 3]),
        _ => panic!("expected forward"),
    }
}

#[test]
fn pong_is_ignored_and_close_echoed() {
    assert!(matches!(handle_frame(ClientFrame::Pong(vec![])), StreamAction::Ignore));
    let reason = CloseReason { code: 1000, description: Some("bye".to_string()) };
    match handle_frame(ClientFrame::Close(Some(reason))) {
        StreamAction::Close(Some(r)) => {
            assert_eq!(r.code, 1000);
            assert_eq!(r.description, Some("bye".to_string()));
        }
        _ => panic!("expected close"),
    }
    assert!(matches!(handle_frame(ClientFrame::Close(None)), StreamAction::Close(None)));
}

#[test]
fn other_frames_close_as_invalid() {
    let frames = vec![
        ClientFrame::Text("hi".to_string()),
        ClientFrame::Ping(vec![9]),
        ClientFrame::Continuation,
        ClientFrame::Nop,
        ClientFrame::ProtocolError("overflow".to_string()),
    ];
    for frame in frames {
        match handle_frame(frame) {
            StreamAction::Close(Some(r)) => {
                assert_eq!(r.code, 1007);
                assert_eq!(r.code, CLOSE_INVALID);
                assert_eq!(
                    r.description,
                    Some("Fluvio websocket proxy only supports binary messages".to_string())
                );
            }
            _ => panic!("expected close"),
        }
    }
}

#[test]
fn pump_turns() {
    let mut buf = read_buffer();
    assert_eq!(buf.len(), READ_BUFFER_SIZE);
    assert!(buf.iter().all(|b| *b == 0));
    buf[0] = 7;
    buf[1] = 8;
    buf[2] = 9;
    match pump_step(PumpEvent::Incoming(Ok(2)), &buf) {
        PumpAction::Reply(b) => assert_eq!(b, vec![7, 8]),
        _ => panic!("expected reply"),
    }
    match pump_step(PumpEvent::Incoming(Ok(0)), &buf) {
        PumpAction::Reply(b) => assert!(b.is_empty()),
        _ => panic!("expected reply"),
    }
    assert!(matches!(pump_step(PumpEvent::Incoming(Err("reset".to_string())), &buf), PumpAction::Stop));
    assert!(matches!(pump_step(PumpEvent::Heartbeat, &buf), PumpAction::Ping));
    match pump_step(PumpEvent::Outgoing(Ok(vec![5])), &buf) {
        PumpAction::WriteToCluster(b) => assert_eq!(b, vec![5]),
        _ => panic!("expected write"),
    }
    match pump_step(PumpEvent::Outgoing(Err("closed".to_string())), &buf) {
        PumpAction::LogQueueError(m) => assert_eq!(m, "closed"),
        _ => panic!("expected log"),
    }
}

#[test]
fn session_settings() {
    assert_eq!(WRITE_QUEUE_CAPACITY, 100);
    assert_eq!(READ_BUFFER_SIZE, 10000);
    assert_eq!(PING_INTERVAL_SECS, 50);
    let q = RegisterQuery { addr: Some("sc:9003".to_string()) };
    assert_eq!(q.addr.as_deref(), Some("sc:9003"));
}

#[test]
fn proxy_listens_on_port_8000_at_ws() {
    assert_eq!(fluvio_web::proxy::session::WS_PORT, 8000);
    assert_eq!(fluvio_web::proxy::session::register_path(), "/ws/");
}

#[test]
fn session_forwards_and_replies_in_order_until_read_failure() {
    let mut buf = read_buffer();
    let mut written: Vec<Vec<u8>> = Vec::new();
    let mut replied: Vec<Vec<u8>> = Vec::new();
    let mut pings = 0;
    let mut stopped = false;
    let turns: Vec<(PumpEvent, Vec<u8>)> = vec![
        (PumpEvent::Outgoing(Ok(vec![1])), vec![]),
        (PumpEvent::Incoming(Ok(2)), vec![10, 11]),
        (PumpEvent::Outgoing(Err("closed".to_string())), vec![]),
        (PumpEvent::Outgoing(Ok(vec![2, 3])), vec![]),
        (PumpEvent::Heartbeat, vec![]),
        (PumpEvent::Incoming(Ok(1)), vec![12]),
        (PumpEvent::Incoming(Err("reset".to_string())), vec![]),
        (PumpEvent::Outgoing(Ok(vec![4])), vec![]),
    ];
    for (event, fill) in turns {
        buf[..fill.len()].copy_from_slice(&fill);
        match pump_step(event, &buf) {
            PumpAction::WriteToCluster(b) => written.push(b),
            PumpAction::Reply(b) => replied.push(b),
            PumpAction::Ping => pings += 1,
            PumpAction::LogQueueError(_) => {}
            PumpAction::Stop => {
                stopped = true;
                break;
            }
        }
    }
    assert!(stopped);
    assert_eq!(written, vec![vec![1], vec![2, 3]]);
    assert_eq!(replied, vec![vec![10, 11], vec![12]]);
    assert_eq!(pings, 1);
}
