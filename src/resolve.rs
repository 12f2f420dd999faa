use vstd::prelude::*;

use crate::error::Error;

verus! {

/// The port a Minecraft server listens on when nothing else is said.
pub const DEFAULT_PORT: u16 = 25565;

/// One answer to a service-record query: the host and port that the
/// operator points clients to.
#[derive(Clone, Debug)]
pub struct SrvRecord {
    pub target: String,
    pub port: u16,
}

/// Where a lookup connects: a host name still to be resolved to an address,
/// and the port.
#[derive(Clone, Debug)]
pub struct Endpoint {
    pub host: String,
    pub port: u16,
}

impl View for Endpoint {
    type V = (Seq<char>, u16);

    open spec fn view(&self) -> (Seq<char>, u16) {
        (self.host@, self.port)
    }
}

/// The service-record name under which Minecraft servers are published.
pub open spec fn srv_name(hostname: Seq<char>) -> Seq<char> {
    "_minecraft._tcp."@ + hostname
}

/// Whether a service-record query came back with at least one record.
pub open spec fn has_records(srv: Option<Seq<SrvRecord>>) -> bool {
    srv is Some && srv->0.len() > 0
}

/// The endpoint to connect to: the first service record when the query gave
/// one, else the host itself on the given port, or the default port.
pub open spec fn chosen_endpoint(
    hostname: Seq<char>,
    port: Option<u16>,
    srv: Option<Seq<SrvRecord>>,
) -> (Seq<char>, u16) {
    if has_records(srv) {
        (srv->0[0].target@, srv->0[0].port)
    } else {
        (hostname, port.unwrap_or(DEFAULT_PORT))
    }
}

/// The views of the records, or `None` where the query failed.
pub open spec fn records_view(srv: Option<Vec<SrvRecord>>) -> Option<Seq<SrvRecord>> {
    match srv {
        Some(v) => Some(v@),
        None => None,
    }
}

/// The name to query for the service record of `hostname`.
pub fn srv_query_name(hostname: &str) -> (r: String)
    ensures
        r@ == srv_name(hostname@),
{
    let prefix = String::from_str("_minecraft._tcp.");
    prefix.concat(hostname)
}

/// Picks the endpoint from the answer to the service-record query: `srv` is
/// `None` where the query failed, else the records in the order received.
/// A record, when there is one, wins over the caller's port.
pub fn choose_endpoint(hostname: &str, port: Option<u16>, srv: Option<Vec<SrvRecord>>) -> (r:
    Endpoint)
    ensures
        r@ == chosen_endpoint(hostname@, port, records_view(srv)),
        has_records(records_view(srv)) ==> r.host@ == srv->0@[0].target@ && r.port
            == srv->0@[0].port,
        !has_records(records_view(srv)) ==> r.host@ == hostname@ && r.port == port.unwrap_or(
            DEFAULT_PORT,
        ),
{
    match srv {
        Some(records) if records.len() > 0 => {
            let first = &records[0];
            Endpoint { host: first.target.clone(), port: first.port }
        },
        _ => {
            let p = match port {
                Some(p) => p,
                None => DEFAULT_PORT,
            };
            Endpoint { host: String::from_str(hostname), port: p }
        },
    }
}

/// Takes the address to connect to from the answer to the address query:
/// `lookup` is `None` where the query failed, else the addresses found.
pub fn pick_address<A>(lookup: Option<Vec<A>>) -> (r: Result<A, Error>)
    ensures
        lookup is None ==> r == Err::<A, Error>(Error::ResolutionFailed),
        lookup is Some && lookup->0@.len() == 0 ==> r == Err::<A, Error>(Error::NoAddressFound),
        lookup is Some && lookup->0@.len() > 0 ==> r == Ok::<A, Error>(lookup->0@[0]),
{
    match lookup {
        None => Err(Error::ResolutionFailed),
        Some(mut addrs) => {
            if addrs.len() == 0 {
                Err(Error::NoAddressFound)
            } else {
                Ok(addrs.remove(0))
            }
        },
    }
}

} // verus!
