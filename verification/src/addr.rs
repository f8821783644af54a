//! Network addresses as plain values.
//!
//! An IPv4 address is held as its 32 bits and an IPv6 address as its 128
//! bits, most significant octet first, so that two addresses are the same
//! host exactly when the values are equal.

use vstd::prelude::*;

verus! {

/// The address of a host.
#[derive(Clone, Copy, Debug, PartialEq, Eq, Structural)]
pub enum IpAddress {
    /// An IPv4 address, as its 32 bits.
    V4(u32),
    /// An IPv6 address, as its 128 bits.
    V6(u128),
}

/// An address family.
#[derive(Clone, Copy, Debug, PartialEq, Eq, Structural)]
pub enum Family {
    /// IPv4.
    V4,
    /// IPv6.
    V6,
}

/// The bits of the IPv4 address `a.b.c.d`.
pub open spec fn v4_bits(a: u8, b: u8, c: u8, d: u8) -> int {
    a * 0x100_0000 + b * 0x1_0000 + c * 0x100 + d
}

impl IpAddress {
    /// The IPv4 address `a.b.c.d`.
    pub fn v4(a: u8, b: u8, c: u8, d: u8) -> (r: IpAddress)
        ensures
            r == IpAddress::V4(v4_bits(a, b, c, d) as u32),
            v4_bits(a, b, c, d) <= u32::MAX,
    {
        let bits: u32 = (a as u32) * 0x100_0000 + (b as u32) * 0x1_0000 + (c as u32) * 0x100 + (
        d as u32);
        IpAddress::V4(bits)
    }

    /// The family that the address belongs to.
    pub open spec fn spec_family(self) -> Family {
        match self {
            IpAddress::V4(_) => Family::V4,
            IpAddress::V6(_) => Family::V6,
        }
    }

    /// The family that the address belongs to.
    pub fn family(&self) -> (r: Family)
        ensures
            r == self.spec_family(),
    {
        match self {
            IpAddress::V4(_) => Family::V4,
            IpAddress::V6(_) => Family::V6,
        }
    }

    /// The address of a family that stands for every local address: all
    /// bits zero.
    pub open spec fn spec_unspecified(family: Family) -> IpAddress {
        match family {
            Family::V4 => IpAddress::V4(0),
            Family::V6 => IpAddress::V6(0),
        }
    }

    /// The address of a family that stands for every local address.
    pub fn unspecified(family: Family) -> (r: IpAddress)
        ensures
            r == Self::spec_unspecified(family),
    {
        match family {
            Family::V4 => IpAddress::V4(0),
            Family::V6 => IpAddress::V6(0),
        }
    }
}

/// A host address with a port. The IPv6 form also carries the flow
/// information and the scope of the address.
#[allow(inconsistent_fields)]
#[derive(Clone, Copy, Debug, PartialEq, Eq, Structural)]
pub enum SocketAddress {
    /// An IPv4 address and a port.
    V4 { ip: u32, port: u16 },
    /// An IPv6 address, a port, flow information and a scope.
    V6 { ip: u128, port: u16, flowinfo: u32, scope_id: u32 },
}

impl SocketAddress {
    /// An address and a port, with no flow information and no scope.
    pub open spec fn spec_new(ip: IpAddress, port: u16) -> SocketAddress {
        match ip {
            IpAddress::V4(bits) => SocketAddress::V4 { ip: bits, port },
            IpAddress::V6(bits) => SocketAddress::V6 { ip: bits, port, flowinfo: 0, scope_id: 0 },
        }
    }

    /// An address and a port, with no flow information and no scope.
    pub fn new(ip: IpAddress, port: u16) -> (r: SocketAddress)
        ensures
            r == Self::spec_new(ip, port),
    {
        match ip {
            IpAddress::V4(bits) => SocketAddress::V4 { ip: bits, port },
            IpAddress::V6(bits) => SocketAddress::V6 { ip: bits, port, flowinfo: 0, scope_id: 0 },
        }
    }

    /// The host part.
    pub open spec fn spec_ip(self) -> IpAddress {
        match self {
            SocketAddress::V4 { ip, .. } => IpAddress::V4(ip),
            SocketAddress::V6 { ip, .. } => IpAddress::V6(ip),
        }
    }

    /// The host part.
    pub fn ip(&self) -> (r: IpAddress)
        ensures
            r == self.spec_ip(),
    {
        match self {
            SocketAddress::V4 { ip, .. } => IpAddress::V4(*ip),
            SocketAddress::V6 { ip, .. } => IpAddress::V6(*ip),
        }
    }

    /// The port.
    pub open spec fn spec_port(self) -> u16 {
        match self {
            SocketAddress::V4 { port, .. } => port,
            SocketAddress::V6 { port, .. } => port,
        }
    }

    /// The port.
    pub fn port(&self) -> (r: u16)
        ensures
            r == self.spec_port(),
    {
        match self {
            SocketAddress::V4 { port, .. } => *port,
            SocketAddress::V6 { port, .. } => *port,
        }
    }
}

} // verus!
