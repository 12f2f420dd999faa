use vstd::prelude::*;

use crate::resolve::{chosen_endpoint, has_records, Endpoint, SrvRecord};

verus! {

/// Protocol version declared when the caller names none.
pub const DEFAULT_PROTOCOL_VERSION: i32 = 0;

/// Echo value carried by the ping request; the reply's copy is not checked.
pub const PING_TIME: i64 = 0;

/// The phase a handshake asks the server to enter.
#[derive(Clone, Copy, Debug, PartialEq, Eq, Structural)]
pub enum NextState {
    Status,
    Login,
}

/// The first packet of every session.
#[derive(Clone, Debug)]
pub struct Handshake {
    pub protocol_version: i32,
    pub server_address: String,
    pub server_port: u16,
    pub next_state: NextState,
}

/// A handshake seen as plain values.
pub struct HandshakeView {
    pub protocol_version: i32,
    pub server_address: Seq<char>,
    pub server_port: u16,
    pub next_state: NextState,
}

impl View for Handshake {
    type V = HandshakeView;

    open spec fn view(&self) -> HandshakeView {
        HandshakeView {
            protocol_version: self.protocol_version,
            server_address: self.server_address@,
            server_port: self.server_port,
            next_state: self.next_state,
        }
    }
}

/// The packets this client sends.
#[derive(Clone, Debug)]
pub enum Outbound {
    Handshake(Handshake),
    StatusRequest,
    Ping { time: i64 },
}

/// The packets a server may send on the status channel.
#[derive(Clone, Debug)]
pub enum StatusPacket {
    /// The status document, a JSON text the client passes on unread.
    Response(String),
    /// The echo of a ping request.
    Pong { time: i64 },
}

/// One inbound frame as the codec read it: a status-channel packet, or a
/// frame whose id is unknown or whose payload is malformed.
#[derive(Clone, Debug)]
pub enum Inbound {
    Packet(StatusPacket),
    Undecodable,
}

/// The handshake for a status lookup of `hostname` that connects to
/// `endpoint`: it declares the port actually connected to.
pub open spec fn handshake_view(
    hostname: Seq<char>,
    endpoint: (Seq<char>, u16),
    version: Option<i32>,
) -> HandshakeView {
    HandshakeView {
        protocol_version: version.unwrap_or(DEFAULT_PROTOCOL_VERSION),
        server_address: hostname,
        server_port: endpoint.1,
        next_state: NextState::Status,
    }
}

/// Builds the handshake of a status lookup of `hostname` over `endpoint`.
pub fn handshake(hostname: &str, endpoint: &Endpoint, version: Option<i32>) -> (r: Handshake)
    ensures
        r@ == handshake_view(hostname@, endpoint@, version),
{
    let protocol_version = match version {
        Some(v) => v,
        None => DEFAULT_PROTOCOL_VERSION,
    };
    Handshake {
        protocol_version,
        server_address: String::from_str(hostname),
        server_port: endpoint.port,
        next_state: NextState::Status,
    }
}

/// The packets that open a status lookup, in the order they are written:
/// the handshake, then the status request. Both are flushed together.
pub fn opening_packets(hostname: &str, endpoint: &Endpoint, version: Option<i32>) -> (r: Vec<
    Outbound,
>)
    ensures
        r@.len() == 2,
        r@[0] matches Outbound::Handshake(h) && h@ == handshake_view(hostname@, endpoint@, version),
        r@[1] is StatusRequest,
{
    let mut packets: Vec<Outbound> = Vec::new();
    packets.push(Outbound::Handshake(handshake(hostname, endpoint, version)));
    packets.push(Outbound::StatusRequest);
    packets
}

/// The ping request, sent once the status response has arrived.
pub fn ping_request() -> (r: Outbound)
    ensures
        r == (Outbound::Ping { time: PING_TIME }),
{
    Outbound::Ping { time: PING_TIME }
}

/// The handshake declares the port the connection is opened on, also where
/// that port came from a service record and not from the caller.
pub proof fn lemma_declared_port_is_connected_port(
    hostname: Seq<char>,
    port: Option<u16>,
    srv: Option<Seq<SrvRecord>>,
    version: Option<i32>,
)
    ensures
        handshake_view(hostname, chosen_endpoint(hostname, port, srv), version).server_port
            == chosen_endpoint(hostname, port, srv).1,
        has_records(srv) ==> handshake_view(
            hostname,
            chosen_endpoint(hostname, port, srv),
            version,
        ).server_port == srv->0[0].port,
{
}

} // verus!
