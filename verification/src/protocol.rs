//! Plain-value model of the NAT-PMP conversation with the gateway.
//!
//! The transport layer decodes each datagram (or failure) into a
//! [`TransportEvent`]; the query logic decides on events alone and never
//! touches the wire format.

use vstd::prelude::*;

verus! {

/// Transport protocol a mapping is granted for. This client only ever
/// requests TCP mappings.
#[derive(Clone, Copy, Debug, PartialEq, Eq, Structural)]
pub enum Protocol {
    Tcp,
    Udp,
}

/// What a gateway query reports: the gateway's externally visible IPv4
/// address (four octets packed big-endian into one integer) and the epoch
/// counter with which the gateway signals that it has reset its state.
#[derive(Clone, Copy, Debug, PartialEq, Eq, Structural)]
pub struct PublicAddressInfo {
    pub address: u32,
    pub epoch: u32,
}

/// A granted port mapping: the renewable resource this client keeps alive.
/// The grant is implicitly timed from the moment it is received.
#[derive(Clone, Copy, Debug, PartialEq, Eq, Structural)]
pub struct PortMapping {
    pub protocol: Protocol,
    pub internal_port: u16,
    pub external_port: u16,
    pub lifetime_secs: u32,
}

/// A port-mapping request as it goes out on the wire: which protocol and
/// ports to map and for how long the client asks the grant to last.
#[derive(Clone, Copy, Debug, PartialEq, Eq, Structural)]
pub struct MappingRequest {
    pub protocol: Protocol,
    pub internal_port: u16,
    pub external_port: u16,
    pub lifetime_secs: u32,
}

/// One observation made by a single read on the transport: a decoded
/// response, the transient "no response yet" signal, or any other transport
/// failure (which is always fatal to the running query).
#[derive(Clone, Copy, Debug, PartialEq, Eq, Structural)]
pub enum TransportEvent {
    /// No response has arrived yet; the query should retry.
    TryAgain,
    /// Any transport error other than the retry signal.
    Fatal,
    /// A public-address response.
    Gateway { info: PublicAddressInfo },
    /// A port-mapping response for either protocol.
    Mapping { protocol: Protocol, internal_port: u16, external_port: u16, lifetime_secs: u32 },
}

/// Why a query failed.
#[derive(Clone, Copy, Debug, PartialEq, Eq, Structural)]
pub enum QueryError {
    /// The backoff schedule was exhausted while querying the gateway's
    /// public address.
    Timeout,
    /// The gateway answered a public-address query with a response of the
    /// wrong kind: a protocol violation, never retried.
    UnexpectedResponse,
    /// The transport reported an error other than its retry signal.
    TransportFatal,
    /// The backoff schedule was exhausted without an acceptable mapping.
    MappingFailed,
}

} // verus!
