use vstd::prelude::*;

verus! {

/// HTTP status every failure is reported with: callers are told only that
/// the lookup failed, never why.
pub const INTERNAL_SERVER_ERROR: u16 = 500;

/// Every way a status lookup can fail. Each one ends the lookup at once;
/// none is retried.
#[derive(Clone, Copy, Debug, PartialEq, Eq, Structural)]
pub enum Error {
    /// The DNS query for the host failed.
    ResolutionFailed,
    /// The DNS query succeeded but returned no address.
    NoAddressFound,
    /// The connection could not be opened, or broke during the exchange.
    TransportFailed,
    /// An outbound packet could not be encoded.
    EncodingFailed,
    /// An inbound packet could not be decoded, or had an unknown id.
    DecodingFailed,
    /// No status response came before the deadline.
    Timeout,
}

/// The short machine-readable name of each error kind.
pub open spec fn error_code(e: Error) -> Seq<char> {
    match e {
        Error::ResolutionFailed => "RESOLVE_ERROR"@,
        Error::NoAddressFound => "NO_IP_FOUND"@,
        Error::TransportFailed => "TCP_CONNECT_FAILED"@,
        Error::EncodingFailed => "ENCODING_ERROR"@,
        Error::DecodingFailed => "DECODING_ERROR"@,
        Error::Timeout => "TCP_TIMEOUT"@,
    }
}

impl Error {
    /// The short name of this error kind, for logs.
    pub fn code(&self) -> (r: String)
        ensures
            r@ == error_code(*self),
    {
        match self {
            Error::ResolutionFailed => String::from_str("RESOLVE_ERROR"),
            Error::NoAddressFound => String::from_str("NO_IP_FOUND"),
            Error::TransportFailed => String::from_str("TCP_CONNECT_FAILED"),
            Error::EncodingFailed => String::from_str("ENCODING_ERROR"),
            Error::DecodingFailed => String::from_str("DECODING_ERROR"),
            Error::Timeout => String::from_str("TCP_TIMEOUT"),
        }
    }

    /// The HTTP status a failed lookup is answered with: the same for every
    /// kind, so that nothing about the target leaks to the caller.
    pub fn http_status(&self) -> (r: u16)
        ensures
            r == INTERNAL_SERVER_ERROR,
    {
        INTERNAL_SERVER_ERROR
    }
}

} // verus!
