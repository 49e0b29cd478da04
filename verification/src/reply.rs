//! The SOCKS5 reply vocabulary and the bytes of the success reply.

use crate::proxy::{ProxyError, ProxyErrorView, TransportFailure, UpstreamFailure};
use vstd::prelude::*;

verus! {

/// The outcome reported to the inbound client.
#[derive(Debug, Clone, Copy, PartialEq, Eq, Structural)]
pub enum ReplyCode {
    Succeeded,
    GeneralFailure,
    ConnectionNotAllowed,
    NetworkUnreachable,
    HostUnreachable,
    ConnectionRefused,
    TtlExpired,
    CommandNotSupported,
    AddressTypeNotSupported,
    ConnectionTimeout,
}

/// The address that a success reply reports as bound.
#[derive(Debug, Clone, Copy, PartialEq, Eq)]
pub struct BoundAddress {
    pub octets: [u8; 4],
    pub port: u16,
}

/// The bound address sent with every success reply: loopback, port 0.
/// The relay does not expose the upstream side's local endpoint.
pub open spec fn placeholder_bound_address() -> BoundAddress {
    BoundAddress { octets: [127u8, 0u8, 0u8, 1u8], port: 0 }
}

/// The success reply on the wire: version 5, reply 0, reserved 0,
/// address type 1 (IPv4), the four octets, the port in network order.
pub open spec fn success_reply_bytes(bound: BoundAddress) -> Seq<u8> {
    seq![
        5u8,
        0u8,
        0u8,
        1u8,
        bound.octets[0],
        bound.octets[1],
        bound.octets[2],
        bound.octets[3],
        (bound.port / 256) as u8,
        (bound.port % 256) as u8,
    ]
}

impl BoundAddress {
    pub fn placeholder() -> (r: BoundAddress)
        ensures
            r == placeholder_bound_address(),
    {
        BoundAddress { octets: [127u8, 0u8, 0u8, 1u8], port: 0 }
    }
}

/// The bytes sent verbatim to the client once the upstream is connected.
pub fn success_reply() -> (r: Vec<u8>)
    ensures
        r@ == success_reply_bytes(placeholder_bound_address()),
        r@ == seq![5u8, 0u8, 0u8, 1u8, 127u8, 0u8, 0u8, 1u8, 0u8, 0u8],
{
    let bound = BoundAddress::placeholder();
    let mut r: Vec<u8> = Vec::new();
    r.push(5u8);
    r.push(0u8);
    r.push(0u8);
    r.push(1u8);
    r.push(bound.octets[0]);
    r.push(bound.octets[1]);
    r.push(bound.octets[2]);
    r.push(bound.octets[3]);
    r.push((bound.port / 256) as u8);
    r.push((bound.port % 256) as u8);
    r
}

/// The reply for a failure of the connection itself.
pub open spec fn reply_of_transport(failure: TransportFailure) -> ReplyCode {
    match failure {
        TransportFailure::ConnectionRefused => ReplyCode::ConnectionRefused,
        TransportFailure::ConnectionAborted => ReplyCode::ConnectionNotAllowed,
        TransportFailure::ConnectionReset => ReplyCode::ConnectionNotAllowed,
        TransportFailure::NotConnected => ReplyCode::NetworkUnreachable,
        TransportFailure::Other => ReplyCode::GeneralFailure,
    }
}

/// The reply that tells the client why its request could not be served.
/// A timeout has its own code; a transport failure is told by its kind,
/// whichever protocol met it; all else is a general failure.
pub open spec fn reply_of_error(error: ProxyErrorView) -> ReplyCode {
    match error {
        ProxyErrorView::ConnectionTimeout => ReplyCode::ConnectionTimeout,
        ProxyErrorView::HttpError(UpstreamFailure::Transport(failure)) => reply_of_transport(
            failure,
        ),
        ProxyErrorView::SocksError(UpstreamFailure::Transport(failure)) => reply_of_transport(
            failure,
        ),
        _ => ReplyCode::GeneralFailure,
    }
}

fn transport_reply(failure: TransportFailure) -> (r: ReplyCode)
    ensures
        r == reply_of_transport(failure),
{
    match failure {
        TransportFailure::ConnectionRefused => ReplyCode::ConnectionRefused,
        TransportFailure::ConnectionAborted | TransportFailure::ConnectionReset => {
            ReplyCode::ConnectionNotAllowed
        },
        TransportFailure::NotConnected => ReplyCode::NetworkUnreachable,
        TransportFailure::Other => ReplyCode::GeneralFailure,
    }
}

/// The reply that tells the client why the upstream connect failed.
pub fn reply_for_error(error: &ProxyError) -> (r: ReplyCode)
    ensures
        r == reply_of_error(error@),
{
    match error {
        ProxyError::ConnectionTimeout => ReplyCode::ConnectionTimeout,
        ProxyError::HttpError(UpstreamFailure::Transport(failure)) => transport_reply(*failure),
        ProxyError::SocksError(UpstreamFailure::Transport(failure)) => transport_reply(*failure),
        _ => ReplyCode::GeneralFailure,
    }
}

/// Every error has a reply, and it is one of five failure codes: a
/// failure is never reported as success.
pub proof fn lemma_reply_is_failure(error: ProxyErrorView)
    ensures
        reply_of_error(error) != ReplyCode::Succeeded,
        reply_of_error(error) == ReplyCode::ConnectionTimeout || reply_of_error(error)
            == ReplyCode::ConnectionRefused || reply_of_error(error)
            == ReplyCode::ConnectionNotAllowed || reply_of_error(error)
            == ReplyCode::NetworkUnreachable || reply_of_error(error)
            == ReplyCode::GeneralFailure,
{
}

/// The reply depends on what failed, not on the protocol that met it.
pub proof fn lemma_reply_ignores_protocol(failure: UpstreamFailure)
    ensures
        reply_of_error(ProxyErrorView::HttpError(failure)) == reply_of_error(
            ProxyErrorView::SocksError(failure),
        ),
{
}

/// Only a timeout is reported as a timeout.
pub proof fn lemma_timeout_reply(error: ProxyErrorView)
    ensures
        reply_of_error(error) == ReplyCode::ConnectionTimeout <==> error
            == ProxyErrorView::ConnectionTimeout,
{
}

} // verus!
