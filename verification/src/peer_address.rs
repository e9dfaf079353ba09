//! The address of a peer on the network.

use vstd::prelude::*;
use crate::sip::tokens::Transport;

verus! {

/// An IPv4 address, by its four octets.
#[derive(Clone, Copy, Debug, PartialEq, Eq, Structural, Hash)]
pub struct Ipv4Address {
    pub a: u8,
    pub b: u8,
    pub c: u8,
    pub d: u8,
}

impl Ipv4Address {
    pub fn new(a: u8, b: u8, c: u8, d: u8) -> (r: Self)
        ensures
            r == (Ipv4Address { a, b, c, d }),
    {
        Ipv4Address { a, b, c, d }
    }
}

/// The host part of the address of a peer.
#[derive(Clone, Copy, Debug, PartialEq, Eq, Structural, Hash)]
pub enum IpAddress {
    V4(Ipv4Address),
    V6 { ip: u128, flowinfo: u32, scope_id: u32 },
}

/// The remote end of a connection or the source of a datagram: host, port
/// and transport. It is what tells the peers of the server apart.
#[derive(Clone, Copy, Debug, PartialEq, Eq, Structural, Hash)]
pub struct PeerAddress {
    pub ip: IpAddress,
    pub port: u16,
    pub transport: Transport,
}

impl PeerAddress {
    pub fn new(ip: IpAddress, port: u16, transport: Transport) -> (r: Self)
        ensures
            r == (PeerAddress { ip, port, transport }),
    {
        PeerAddress { ip, port, transport }
    }

    /// The peer that sends datagrams from the IPv4 address `a.b.c.d` and a
    /// port.
    pub fn udp_v4(a: u8, b: u8, c: u8, d: u8, port: u16) -> (r: Self)
        ensures
            r == (PeerAddress {
                ip: IpAddress::V4(Ipv4Address { a, b, c, d }),
                port,
                transport: Transport::Udp,
            }),
    {
        PeerAddress { ip: IpAddress::V4(Ipv4Address { a, b, c, d }), port, transport: Transport::Udp }
    }

    /// The peer that is connected from the IPv4 address `a.b.c.d` and a
    /// port.
    pub fn tcp_v4(a: u8, b: u8, c: u8, d: u8, port: u16) -> (r: Self)
        ensures
            r == (PeerAddress {
                ip: IpAddress::V4(Ipv4Address { a, b, c, d }),
                port,
                transport: Transport::Tcp,
            }),
    {
        PeerAddress { ip: IpAddress::V4(Ipv4Address { a, b, c, d }), port, transport: Transport::Tcp }
    }
}

} // verus!
