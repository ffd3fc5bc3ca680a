//! Socket addresses and the form in which the C API carries them.

use vstd::prelude::*;

verus! {

/// An internet socket address.
#[allow(inconsistent_fields)]
#[derive(Debug, Clone, Copy, PartialEq, Eq)]
pub enum SocketAddr {
    /// An IPv4 address.
    V4 { octets: [u8; 4], port: u16 },
    /// An IPv6 address.
    V6 { octets: [u8; 16], port: u16, flowinfo: u32, scope_id: u32 },
}

/// The address family of a raw socket address.
#[derive(Debug, Clone, Copy, PartialEq, Eq, Structural)]
pub enum AddressFamily {
    /// `AF_INET`
    Inet,
    /// `AF_INET6`
    Inet6,
    /// Any other family.
    Other,
}

/// The fields of a C socket address: those of `sockaddr_in` where the family is
/// `AF_INET`, those of `sockaddr_in6` where it is `AF_INET6`.
#[derive(Debug, Clone, Copy, PartialEq, Eq)]
pub struct RawSockAddr {
    pub family: AddressFamily,
    /// The port, in network byte order.
    pub port: [u8; 2],
    /// `sin_addr`, as it stands in memory.
    pub addr4: [u8; 4],
    /// `sin6_addr`, as it stands in memory.
    pub addr6: [u8; 16],
    /// `sin6_flowinfo`
    pub flowinfo: u32,
    /// `sin6_scope_id`
    pub scope_id: u32,
}

/// Two bytes in network order that stand for a port.
pub open spec fn port_bytes(port: u16) -> Seq<u8> {
    seq![(port / 256) as u8, (port % 256) as u8]
}

/// The port that two bytes in network order stand for.
pub open spec fn port_of(bytes: Seq<u8>) -> u16 {
    (bytes[0] * 256 + bytes[1]) as u16
}

/// Whether `raw` is the C form of `addr`: the family, the port in network order
/// and the address as it stands, with zeros in the fields of the other family.
pub open spec fn is_raw_form(raw: RawSockAddr, addr: SocketAddr) -> bool {
    match addr {
        SocketAddr::V4 { octets, port } => {
            &&& raw.family == AddressFamily::Inet
            &&& raw.port@ == port_bytes(port)
            &&& raw.addr4 == octets
            &&& raw.addr6@ == Seq::new(16, |i: int| 0u8)
            &&& raw.flowinfo == 0
            &&& raw.scope_id == 0
        },
        SocketAddr::V6 { octets, port, flowinfo, scope_id } => {
            &&& raw.family == AddressFamily::Inet6
            &&& raw.port@ == port_bytes(port)
            &&& raw.addr4@ == Seq::new(4, |i: int| 0u8)
            &&& raw.addr6 == octets
            &&& raw.flowinfo == flowinfo
            &&& raw.scope_id == scope_id
        },
    }
}

/// The address that a C socket address stands for; none where the family is not
/// an internet one. The flow and scope of an IPv6 address are not taken over.
pub open spec fn address_of(raw: RawSockAddr) -> Option<SocketAddr> {
    match raw.family {
        AddressFamily::Inet => Some(SocketAddr::V4 { octets: raw.addr4, port: port_of(raw.port@) }),
        AddressFamily::Inet6 => Some(
            SocketAddr::V6 {
                octets: raw.addr6,
                port: port_of(raw.port@),
                flowinfo: 0,
                scope_id: 0,
            },
        ),
        AddressFamily::Other => None,
    }
}

/// The address `0.0.0.0:0`.
pub open spec fn is_unspecified(addr: SocketAddr) -> bool {
    addr matches SocketAddr::V4 { octets, port } && octets@ == seq![0u8, 0, 0, 0] && port == 0
}

/// The C form of an address.
pub fn socket_addr_to_sockaddr(addr: &SocketAddr) -> (raw: RawSockAddr)
    ensures
        is_raw_form(raw, *addr),
{
    match *addr {
        SocketAddr::V4 { octets, port } => {
            let raw = RawSockAddr {
                family: AddressFamily::Inet,
                port: [(port / 256) as u8, (port % 256) as u8],
                addr4: octets,
                addr6: [0u8; 16],
                flowinfo: 0,
                scope_id: 0,
            };
            assert(raw.port@ =~= port_bytes(port));
            assert(raw.addr6@ =~= Seq::new(16, |i: int| 0u8));
            raw
        },
        SocketAddr::V6 { octets, port, flowinfo, scope_id } => {
            let raw = RawSockAddr {
                family: AddressFamily::Inet6,
                port: [(port / 256) as u8, (port % 256) as u8],
                addr4: [0u8; 4],
                addr6: octets,
                flowinfo,
                scope_id,
            };
            assert(raw.port@ =~= port_bytes(port));
            assert(raw.addr4@ =~= Seq::new(4, |i: int| 0u8));
            raw
        },
    }
}

/// The address that a C socket address stands for.
pub fn sockaddr_to_socket_addr(raw: &RawSockAddr) -> (addr: Option<SocketAddr>)
    ensures
        addr == address_of(*raw),
{
    let port: u16 = (raw.port[0] as u16) * 256 + raw.port[1] as u16;
    match raw.family {
        AddressFamily::Inet => Some(SocketAddr::V4 { octets: raw.addr4, port }),
        AddressFamily::Inet6 => Some(
            SocketAddr::V6 { octets: raw.addr6, port, flowinfo: 0, scope_id: 0 },
        ),
        AddressFamily::Other => None,
    }
}

/// The address that stands in where none is known: `0.0.0.0:0`.
pub fn unspecified() -> (addr: SocketAddr)
    ensures
        is_unspecified(addr),
{
    let octets: [u8; 4] = [0u8, 0, 0, 0];
    assert(octets@ =~= seq![0u8, 0, 0, 0]);
    SocketAddr::V4 { octets, port: 0 }
}

/// An address survives the way into its C form and back, for every IPv4 address
/// and for every IPv6 address without flow information and scope.
pub proof fn law_address_reads_back(addr: SocketAddr, raw: RawSockAddr)
    requires
        is_raw_form(raw, addr),
        addr matches SocketAddr::V6 { flowinfo, scope_id, .. } ==> flowinfo == 0 && scope_id == 0,
    ensures
        address_of(raw) == Some(addr),
{
}

/// Of an IPv6 address, the octets and the port survive the way into its C form
/// and back; flow information and scope come back as zero.
pub proof fn law_ipv6_loses_flow_and_scope(
    octets: [u8; 16],
    port: u16,
    flowinfo: u32,
    scope_id: u32,
    raw: RawSockAddr,
)
    requires
        is_raw_form(raw, (SocketAddr::V6 { octets, port, flowinfo, scope_id })),
    ensures
        address_of(raw) == Some(SocketAddr::V6 { octets, port, flowinfo: 0, scope_id: 0 }),
{
}

} // verus!
