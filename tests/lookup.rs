use mcping::error::{Error, INTERNAL_SERVER_ERROR};
use mcping::exchange::{
    assemble, await_status, ping_latency, settle_status_phase, status_step, Phase, PingReply,
    Session, WaitStep, STATUS_DEADLINE_SECS,
};
use mcping::packet::{
    handshake, opening_packets, ping_request, Inbound, NextState, Outbound, StatusPacket,
    DEFAULT_PROTOCOL_VERSION,
};
use mcping::resolve::{choose_endpoint, pick_address, srv_query_name, SrvRecord, DEFAULT_PORT};
use mcping::JavaResult;

fn record(target: &str, port: u16) -> SrvRecord {
    SrvRecord { target: target.to_string(), port }
}

fn response(text: &str) -> Inbound {
    Inbound::Packet(StatusPacket::Response(text.to_string()))
}

fn pong(time: i64) -> Inbound {
    Inbound::Packet(StatusPacket::Pong { time })
}

const STATUS_JSON: &str = r#"{"version":{"name":"1.20.4","protocol":765},"players":{"max":20,"online":3}}"#;

#[test]
fn srv_query_name_prefixes_service() {
    assert_eq!(srv_query_name("play.example.com"), "_minecraft._tcp.play.example.com");
    assert_eq!(srv_query_name(""), "_minecraft._tcp.");
}

#[test]
fn no_srv_record_uses_host_and_default_port() {
    let e = choose_endpoint("play.example.com", None, None);
    assert_eq!(e.host, "play.example.com");
    assert_eq!(e.port, 25565);
    assert_eq!(DEFAULT_PORT, 25565);
    let h = handshake("play.example.com", &e, None);
    assert_eq!(h.protocol_version, 0);
    assert_eq!(DEFAULT_PROTOCOL_VERSION, 0);
    assert_eq!(h.server_address, "play.example.com");
    assert_eq!(h.server_port, 25565);
    assert_eq!(h.next_state, NextState::Status);
}

#[test]
fn empty_srv_answer_uses_explicit_port() {
    let e = choose_endpoint("mc.example.org", Some(25570), Some(vec![]));
    assert_eq!(e.host, "mc.example.org");
    assert_eq!(e.port, 25570);
}

#[test]
fn failed_srv_query_uses_explicit_port() {
    let e = choose_endpoint("mc.example.org", Some(1234), None);
    assert_eq!(e.host, "mc.example.org");
    assert_eq!(e.port, 1234);
}

#[test]
fn srv_record_wins_over_explicit_port() {
    let srv = vec![record("node1.hosting.net", 30001), record("node2.hosting.net", 30002)];
    let e = choose_endpoint("play.example.com", Some(1234), Some(srv));
    assert_eq!(e.host, "node1.hosting.net");
    assert_eq!(e.port, 30001);
}

#[test]
fn handshake_declares_port_from_srv_record() {
    let srv = vec![record("node1.hosting.net", 30001)];
    let e = choose_endpoint("play.example.com", Some(25565), Some(srv));
    let h = handshake("play.example.com", &e, Some(765));
    assert_eq!(h.server_port, 30001);
    assert_eq!(h.server_address, "play.example.com");
    assert_eq!(h.protocol_version, 765);
    assert_eq!(h.next_state, NextState::Status);
}

#[test]
fn opening_packets_are_handshake_then_request() {
    let e = choose_endpoint("play.example.com", None, None);
    let packets = opening_packets("play.example.com", &e, Some(47));
    assert_eq!(packets.len(), 2);
    match &packets[0] {
        Outbound::Handshake(h) => {
            assert_eq!(h.protocol_version, 47);
            assert_eq!(h.server_port, 25565);
            assert_eq!(h.server_address, "play.example.com");
        }
        other => panic!("expected a handshake, got {:?}", other),
    }
    assert!(matches!(packets[1], Outbound::StatusRequest));
}

#[test]
fn ping_request_carries_zero() {
    assert!(matches!(ping_request(), Outbound::Ping { time: 0 }));
}

#[test]
fn unresolvable_host_fails_before_connecting() {
    let r: Result<u32, Error> = pick_address(None);
    assert_eq!(r, Err(Error::ResolutionFailed));
}

#[test]
fn empty_address_set_is_no_address() {
    let r: Result<u32, Error> = pick_address(Some(vec![]));
    assert_eq!(r, Err(Error::NoAddressFound));
}

#[test]
fn first_address_is_taken() {
    assert_eq!(pick_address(Some(vec![7u32, 8, 9])), Ok(7));
}

#[test]
fn status_step_decides_each_kind() {
    assert!(matches!(status_step(&pong(1)), WaitStep::KeepReading));
    match status_step(&response("{}")) {
        WaitStep::Accept(t) => assert_eq!(t, "{}"),
        other => panic!("expected accept, got {:?}", other),
    }
    assert!(matches!(status_step(&Inbound::Undecodable), WaitStep::Abort(Error::DecodingFailed)));
}

#[test]
fn other_packets_are_discarded_before_response() {
    let frames = vec![pong(1), pong(2), pong(3), response(STATUS_JSON), Inbound::Undecodable];
    assert_eq!(await_status(&frames), Some(Ok(STATUS_JSON.to_string())));
}

#[test]
fn undecodable_frame_aborts_status_phase() {
    let frames = vec![pong(1), Inbound::Undecodable, response(STATUS_JSON)];
    assert_eq!(await_status(&frames), Some(Err(Error::DecodingFailed)));
}

#[test]
fn no_deciding_frame_leaves_phase_open() {
    assert_eq!(await_status(&vec![]), None);
    assert_eq!(await_status(&vec![pong(5), pong(6)]), None);
}

#[test]
fn deadline_gives_timeout() {
    assert_eq!(settle_status_phase(None), Err(Error::Timeout));
    assert_eq!(settle_status_phase(Some(Ok("x".to_string()))), Ok("x".to_string()));
    assert_eq!(settle_status_phase(Some(Err(Error::DecodingFailed))), Err(Error::DecodingFailed));
    assert_eq!(STATUS_DEADLINE_SECS, 5);
}

#[test]
fn ping_latency_needs_decodable_reply() {
    assert_eq!(ping_latency(&PingReply::Received { frame: pong(0), elapsed_nanos: 1_500_000 }), Some(1_500_000));
    assert_eq!(ping_latency(&PingReply::Received { frame: response("{}"), elapsed_nanos: 9 }), Some(9));
    assert_eq!(ping_latency(&PingReply::Received { frame: Inbound::Undecodable, elapsed_nanos: 9 }), None);
    assert_eq!(ping_latency(&PingReply::Failed), None);
}

#[test]
fn malformed_ping_reply_still_succeeds() {
    let r: JavaResult = assemble(STATUS_JSON.to_string(), &PingReply::Received { frame: Inbound::Undecodable, elapsed_nanos: 42 });
    assert_eq!(r.resp, STATUS_JSON);
    assert_eq!(r.ping_nanos, None);
    let r = assemble(STATUS_JSON.to_string(), &PingReply::Failed);
    assert_eq!(r.resp, STATUS_JSON);
    assert_eq!(r.ping_nanos, None);
    let r = assemble(STATUS_JSON.to_string(), &PingReply::Received { frame: pong(0), elapsed_nanos: 42 });
    assert_eq!(r.ping_nanos, Some(42));
}

#[test]
fn session_full_exchange() {
    let e = choose_endpoint("play.example.com", None, None);
    let mut s = Session::new("play.example.com", e, None);
    assert!(matches!(s.phase, Phase::Idle));
    let out = s.start();
    assert_eq!(out.len(), 2);
    assert!(matches!(&out[0], Outbound::Handshake(h) if h.server_port == 25565 && h.protocol_version == 0));
    assert!(matches!(out[1], Outbound::StatusRequest));
    assert!(matches!(s.phase, Phase::AwaitingStatus));
    assert!(matches!(s.on_status_frame(pong(11)), WaitStep::KeepReading));
    assert!(matches!(s.phase, Phase::AwaitingStatus));
    assert!(matches!(s.on_status_frame(response(STATUS_JSON)), WaitStep::Accept(_)));
    assert!(matches!(&s.phase, Phase::StatusReceived(t) if t == STATUS_JSON));
    assert!(matches!(s.send_ping(), Outbound::Ping { time: 0 }));
    let r = s.finish(&PingReply::Received { frame: pong(0), elapsed_nanos: 2_000_000 }).unwrap();
    assert_eq!(r.resp, STATUS_JSON);
    assert_eq!(r.ping_nanos, Some(2_000_000));
}

#[test]
fn session_without_ping_reply_succeeds() {
    let e = choose_endpoint("play.example.com", None, None);
    let mut s = Session::new("play.example.com", e, None);
    s.start();
    s.on_status_frame(response("{}"));
    s.send_ping();
    let r = s.finish(&PingReply::Failed).unwrap();
    assert_eq!(r.resp, "{}");
    assert_eq!(r.ping_nanos, None);
}

#[test]
fn session_silent_server_times_out() {
    let e = choose_endpoint("play.example.com", None, None);
    let mut s = Session::new("play.example.com", e, None);
    s.start();
    s.on_deadline();
    assert!(matches!(s.phase, Phase::Failed(Error::Timeout)));
    assert_eq!(s.finish(&PingReply::Failed).unwrap_err(), Error::Timeout);
}

#[test]
fn session_decode_failure_aborts() {
    let e = choose_endpoint("play.example.com", None, None);
    let mut s = Session::new("play.example.com", e, None);
    s.start();
    s.on_status_frame(pong(1));
    assert!(matches!(s.on_status_frame(Inbound::Undecodable), WaitStep::Abort(Error::DecodingFailed)));
    assert_eq!(s.finish(&PingReply::Failed).unwrap_err(), Error::DecodingFailed);
}

#[test]
fn session_transport_error_is_reported() {
    let e = choose_endpoint("play.example.com", None, None);
    let mut s = Session::new("play.example.com", e, None);
    s.on_transport_error(Error::EncodingFailed);
    assert_eq!(s.finish(&PingReply::Failed).unwrap_err(), Error::EncodingFailed);
    let e = choose_endpoint("play.example.com", None, None);
    let mut s = Session::new("play.example.com", e, None);
    s.start();
    s.on_transport_error(Error::TransportFailed);
    assert_eq!(s.finish(&PingReply::Failed).unwrap_err(), Error::TransportFailed);
}

#[test]
fn error_codes_and_status() {
    let all = [
        (Error::ResolutionFailed, "RESOLVE_ERROR"),
        (Error::NoAddressFound, "NO_IP_FOUND"),
        (Error::TransportFailed, "TCP_CONNECT_FAILED"),
        (Error::EncodingFailed, "ENCODING_ERROR"),
        (Error::DecodingFailed, "DECODING_ERROR"),
        (Error::Timeout, "TCP_TIMEOUT"),
    ];
    for (e, code) in all {
        assert_eq!(e.code(), code);
        assert_eq!(e.http_status(), 500);
    }
    assert_eq!(INTERNAL_SERVER_ERROR, 500);
}
