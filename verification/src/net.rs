//! Network addresses.

use vstd::prelude::*;

verus! {

/// IP address as a number, the first byte of the address being the most
/// significant one.
#[derive(Debug, Clone, Copy, PartialEq, Eq, Structural)]
pub enum IpAddress {
    V4(u32),
    V6(u128),
}

#[derive(Debug, Clone, Copy, PartialEq, Eq, Structural)]
pub enum SocketAddress {
    V4 { address: u32, port: u16 },
    V6 { address_v6: u128, port: u16, flow_info: u32, scope_id: u32 },
}

impl SocketAddress {
    /// Address of `ip` and `port`.
    pub open spec fn from_parts(ip: IpAddress, port: u16) -> SocketAddress {
        match ip {
            IpAddress::V4(address) => SocketAddress::V4 { address, port },
            IpAddress::V6(address) => SocketAddress::V6 {
                address_v6: address,
                port,
                flow_info: 0,
                scope_id: 0,
            },
        }
    }

    /// IP address part.
    pub open spec fn ip_address(self) -> IpAddress {
        match self {
            SocketAddress::V4 { address, .. } => IpAddress::V4(address),
            SocketAddress::V6 { address_v6, .. } => IpAddress::V6(address_v6),
        }
    }

    /// Port part.
    pub open spec fn port_number(self) -> u16 {
        match self {
            SocketAddress::V4 { port, .. } => port,
            SocketAddress::V6 { port, .. } => port,
        }
    }

    pub fn new(ip: IpAddress, port: u16) -> (address: Self)
        ensures
            address == Self::from_parts(ip, port),
            address.ip_address() == ip,
            address.port_number() == port,
    {
        match ip {
            IpAddress::V4(address) => SocketAddress::V4 { address, port },
            IpAddress::V6(address) => SocketAddress::V6 {
                address_v6: address,
                port,
                flow_info: 0,
                scope_id: 0,
            },
        }
    }

    pub fn ip(&self) -> (ip: IpAddress)
        ensures
            ip == self.ip_address(),
    {
        match self {
            SocketAddress::V4 { address, .. } => IpAddress::V4(*address),
            SocketAddress::V6 { address_v6, .. } => IpAddress::V6(*address_v6),
        }
    }
}

/// An address keeps the IP address and the port which it is made of, and a version 4
/// address and a version 6 address are never the same.
pub proof fn law_address_keeps_its_parts(ip: IpAddress, port: u16)
    ensures
        match (ip, SocketAddress::from_parts(ip, port)) {
            (
                IpAddress::V4(number),
                SocketAddress::V4 { address, port: new_port },
            ) => address == number && new_port == port,
            (
                IpAddress::V6(number),
                SocketAddress::V6 { address_v6, port: new_port, flow_info, scope_id },
            ) => address_v6 == number && new_port == port && flow_info == 0 && scope_id == 0,
            _ => false,
        },
        SocketAddress::from_parts(ip, port).ip_address() == ip,
        SocketAddress::from_parts(ip, port).port_number() == port,
{
}

/// Addresses with the same IP address differ at most in the port and what a version 6
/// address says of its flow and scope.
pub proof fn law_ip_address_is_the_number(first: SocketAddress, second: SocketAddress)
    ensures
        first.ip_address() == second.ip_address() <==> match (first, second) {
            (
                SocketAddress::V4 { address, .. },
                SocketAddress::V4 { address: other, .. },
            ) => address == other,
            (
                SocketAddress::V6 { address_v6, .. },
                SocketAddress::V6 { address_v6: other, .. },
            ) => address_v6 == other,
            _ => false,
        },
{
}

} // verus!
