//! Socket addresses: the native structures as a driver read them, and the
//! typed addresses made of them.

use vstd::arithmetic::div_mod::lemma_fundamental_div_mod_converse;
use vstd::prelude::*;
use vstd::std_specs::convert::FromSpecImpl;

verus! {

/// An IPv4 address, held as the 32-bit number whose most significant byte
/// is the first octet.
#[derive(Clone, Copy, Debug, PartialEq, Eq, Structural)]
pub struct Ipv4Addr {
    pub bits: u32,
}

/// The 32-bit number of the address `a.b.c.d`.
pub open spec fn ipv4_bits(a: u8, b: u8, c: u8, d: u8) -> int {
    a * 0x100_0000 + b * 0x1_0000 + c * 0x100 + d
}

/// The four octets of the address that `bits` holds, first octet first.
pub open spec fn ipv4_octets(bits: u32) -> Seq<u8> {
    seq![
        (bits / 0x100_0000) as u8,
        (bits / 0x1_0000 % 0x100) as u8,
        (bits / 0x100 % 0x100) as u8,
        (bits % 0x100) as u8,
    ]
}

impl Ipv4Addr {
    /// The address `a.b.c.d`.
    pub fn new(a: u8, b: u8, c: u8, d: u8) -> (r: Ipv4Addr)
        ensures
            r.bits == ipv4_bits(a, b, c, d),
            ipv4_octets(r.bits) == seq![a, b, c, d],
    {
        let bits: u32 = (a as u32) * 0x100_0000 + (b as u32) * 0x1_0000 + (c as u32) * 0x100 + (
        d as u32);
        proof {
            lemma_ipv4_octets_of_bits(a, b, c, d);
        }
        Ipv4Addr { bits }
    }

    /// The four octets, first octet first.
    pub fn octets(&self) -> (r: [u8; 4])
        ensures
            r@ == ipv4_octets(self.bits),
    {
        let bits: u32 = self.bits;
        let r: [u8; 4] = [
            (bits / 0x100_0000) as u8,
            (bits / 0x1_0000 % 0x100) as u8,
            (bits / 0x100 % 0x100) as u8,
            (bits % 0x100) as u8,
        ];
        assert(r@ =~= ipv4_octets(self.bits));
        r
    }
}

/// Octets put together and taken apart again are the same octets.
pub proof fn lemma_ipv4_octets_of_bits(a: u8, b: u8, c: u8, d: u8)
    ensures
        0 <= ipv4_bits(a, b, c, d) <= u32::MAX,
        ipv4_octets(ipv4_bits(a, b, c, d) as u32) == seq![a, b, c, d],
{
    let bits = ipv4_bits(a, b, c, d);
    lemma_fundamental_div_mod_converse(bits, 0x100_0000, a as int, b * 0x1_0000 + c * 0x100 + d);
    lemma_fundamental_div_mod_converse(bits, 0x1_0000, a * 0x100 + b, c * 0x100 + d);
    lemma_fundamental_div_mod_converse(a * 0x100 + b, 0x100, a as int, b as int);
    lemma_fundamental_div_mod_converse(bits, 0x100, a * 0x1_0000 + b * 0x100 + c, d as int);
    lemma_fundamental_div_mod_converse(a * 0x1_0000 + b * 0x100 + c, 0x100, a * 0x100 + b, c as int);
    assert(ipv4_octets(bits as u32) =~= seq![a, b, c, d]);
}

/// A number taken apart into octets and put together again is the same
/// number.
pub proof fn lemma_ipv4_bits_of_octets(bits: u32)
    ensures
        ipv4_octets(bits).len() == 4,
        ipv4_bits(
            ipv4_octets(bits)[0],
            ipv4_octets(bits)[1],
            ipv4_octets(bits)[2],
            ipv4_octets(bits)[3],
        ) == bits,
{
}

/// An IPv6 address: its sixteen octets, first octet first.
#[derive(Clone, Copy, Debug, PartialEq, Eq)]
pub struct Ipv6Addr {
    pub octets: [u8; 16],
}

/// An IPv4 address and a port.
#[derive(Clone, Copy, Debug, PartialEq, Eq, Structural)]
pub struct SocketAddrV4 {
    pub ip: Ipv4Addr,
    pub port: u16,
}

/// An IPv6 address, a port, and the flow and scope that come with them.
#[derive(Clone, Copy, Debug, PartialEq, Eq)]
pub struct SocketAddrV6 {
    pub ip: Ipv6Addr,
    pub port: u16,
    pub flowinfo: u32,
    pub scope_id: u32,
}

/// A typed socket address.
#[derive(Clone, Copy, Debug, PartialEq, Eq)]
pub enum SocketAddr {
    V4(SocketAddrV4),
    V6(SocketAddrV6),
}

/// The layout under which a native socket address is to be read.
#[derive(Clone, Copy, Debug, PartialEq, Eq, Structural)]
pub enum AddressFamily {
    /// An IPv4 socket address.
    Inet,
    /// An IPv6 socket address.
    Inet6,
    /// Any other family: nothing beyond the tag is read.
    Unsupported,
}

/// The fields of a native IPv4 socket address. Port and address are held
/// as their bytes, in the order in which they lie in memory: that is
/// network order, most significant byte first, on every host.
#[derive(Clone, Copy, Debug, PartialEq, Eq)]
pub struct SockAddrIn {
    pub sin_port: [u8; 2],
    pub sin_addr: [u8; 4],
}

/// The fields of a native IPv6 socket address. Port and address are held
/// as their bytes, in the order in which they lie in memory; flow and scope
/// are the numbers that stood in the structure.
#[derive(Clone, Copy, Debug, PartialEq, Eq)]
pub struct SockAddrIn6 {
    pub sin6_port: [u8; 2],
    pub sin6_flowinfo: u32,
    pub sin6_addr: [u8; 16],
    pub sin6_scope_id: u32,
}

/// The port whose two bytes, most significant first, are `hi` and `lo`.
pub open spec fn port_of(hi: u8, lo: u8) -> int {
    hi * 0x100 + lo
}

/// The two bytes of a port, most significant first.
pub open spec fn port_bytes(port: u16) -> Seq<u8> {
    seq![(port / 0x100) as u8, (port % 0x100) as u8]
}

/// The bytes of a port put together and taken apart again are the same
/// bytes.
pub proof fn lemma_port_bytes_of_port(hi: u8, lo: u8)
    ensures
        0 <= port_of(hi, lo) <= u16::MAX,
        port_bytes(port_of(hi, lo) as u16) == seq![hi, lo],
{
    lemma_fundamental_div_mod_converse(port_of(hi, lo), 0x100, hi as int, lo as int);
    assert(port_bytes(port_of(hi, lo) as u16) =~= seq![hi, lo]);
}

/// A port taken apart into bytes and put together again is the same port.
pub proof fn lemma_port_of_port_bytes(port: u16)
    ensures
        port_bytes(port).len() == 2,
        port_of(port_bytes(port)[0], port_bytes(port)[1]) == port,
{
}

fn port_from_bytes(bytes: &[u8; 2]) -> (port: u16)
    ensures
        port == port_of(bytes[0], bytes[1]),
        port_bytes(port) == bytes@,
{
    let port: u16 = (bytes[0] as u16) * 0x100 + (bytes[1] as u16);
    proof {
        lemma_port_bytes_of_port(bytes[0], bytes[1]);
        assert(bytes@ =~= seq![bytes[0], bytes[1]]);
    }
    port
}

/// A native socket address, copied out under the layout of its family.
#[derive(Clone, Copy, Debug, PartialEq, Eq)]
pub enum SockAddr {
    /// A structure of the IPv4 family.
    Inet(SockAddrIn),
    /// A structure of the IPv6 family.
    Inet6(SockAddrIn6),
    /// A structure of another family, of which only the tag was read.
    Other(i32),
}

/// The family that `tag` names on a platform whose IPv4 tag is `inet` and
/// whose IPv6 tag is `inet6`.
pub open spec fn family_of(tag: i32, inet: i32, inet6: i32) -> AddressFamily {
    if tag == inet {
        AddressFamily::Inet
    } else if tag == inet6 {
        AddressFamily::Inet6
    } else {
        AddressFamily::Unsupported
    }
}

/// Classifies a family tag against the two tags of a platform.
pub fn classify_family(tag: i32, inet: i32, inet6: i32) -> (r: AddressFamily)
    ensures
        r == family_of(tag, inet, inet6),
{
    if tag == inet {
        AddressFamily::Inet
    } else if tag == inet6 {
        AddressFamily::Inet6
    } else {
        AddressFamily::Unsupported
    }
}

/// Classifies a family tag against the tags of the platform this runs on:
/// what comes back is `classify_family` of the tag and the platform's two
/// tags. The two differ from platform to platform, so nothing is stated
/// here of a tag above zero; `classify_family` says what it names for
/// given tags. What holds on every platform is stated: both tags are above
/// zero, so a tag that is zero (the unspecified family) or below names no
/// family that is read.
pub fn address_family(tag: i32) -> (r: AddressFamily)
    ensures
        tag <= 0 ==> r == AddressFamily::Unsupported,
{
    classify_family(tag, native_af_inet(), native_af_inet6())
}

/// Trusted: the constant `libc::AF_INET`, the tag of the IPv4 family. Its
/// value differs between platforms, so the value is not given here. On
/// every platform it is above zero, and that is all that is claimed.
#[verifier::external_body]
fn native_af_inet() -> (tag: i32)
    ensures
        tag > 0,
{
    libc::AF_INET
}

/// Trusted: the constant `libc::AF_INET6`, the tag of the IPv6 family. Its
/// value differs between platforms, so the value is not given here. On
/// every platform it is above zero, and that is all that is claimed.
#[verifier::external_body]
fn native_af_inet6() -> (tag: i32)
    ensures
        tag > 0,
{
    libc::AF_INET6
}

/// The typed address that a native socket address stands for: the address
/// and the port that its bytes spell, most significant byte first; none for
/// a family that is not read.
pub open spec fn socketaddr_of(addr: SockAddr) -> Option<SocketAddr> {
    match addr {
        SockAddr::Inet(sin) => Some(
            SocketAddr::V4(
                SocketAddrV4 {
                    ip: Ipv4Addr {
                        bits: ipv4_bits(
                            sin.sin_addr[0],
                            sin.sin_addr[1],
                            sin.sin_addr[2],
                            sin.sin_addr[3],
                        ) as u32,
                    },
                    port: port_of(sin.sin_port[0], sin.sin_port[1]) as u16,
                },
            ),
        ),
        SockAddr::Inet6(sin6) => Some(
            SocketAddr::V6(
                SocketAddrV6 {
                    ip: Ipv6Addr { octets: sin6.sin6_addr },
                    port: port_of(sin6.sin6_port[0], sin6.sin6_port[1]) as u16,
                    flowinfo: sin6.sin6_flowinfo,
                    scope_id: sin6.sin6_scope_id,
                },
            ),
        ),
        SockAddr::Other(_) => None,
    }
}

/// What a typed address writes into a native structure: the bytes of its
/// address and of its port, in the order in which they lie in memory, and
/// for IPv6 its flow and scope.
pub enum NativeForm {
    Inet { port: Seq<u8>, addr: Seq<u8> },
    Inet6 { port: Seq<u8>, flowinfo: u32, addr: Seq<u8>, scope_id: u32 },
    Other,
}

/// What a native socket address holds, with its bytes as sequences.
pub open spec fn native_form(addr: SockAddr) -> NativeForm {
    match addr {
        SockAddr::Inet(sin) => NativeForm::Inet { port: sin.sin_port@, addr: sin.sin_addr@ },
        SockAddr::Inet6(sin6) => NativeForm::Inet6 {
            port: sin6.sin6_port@,
            flowinfo: sin6.sin6_flowinfo,
            addr: sin6.sin6_addr@,
            scope_id: sin6.sin6_scope_id,
        },
        SockAddr::Other(_) => NativeForm::Other,
    }
}

/// The native form of a typed address: the inverse of the conversion.
pub open spec fn sockaddr_of(addr: SocketAddr) -> NativeForm {
    match addr {
        SocketAddr::V4(v4) => NativeForm::Inet {
            port: port_bytes(v4.port),
            addr: ipv4_octets(v4.ip.bits),
        },
        SocketAddr::V6(v6) => NativeForm::Inet6 {
            port: port_bytes(v6.port),
            flowinfo: v6.flowinfo,
            addr: v6.ip.octets@,
            scope_id: v6.scope_id,
        },
    }
}

/// Converts a native socket address. An IPv4 structure gives its address
/// and port, an IPv6 structure its address, port, flow and scope; any other
/// family gives nothing, which is no error. The typed address spells the
/// bytes of the structure: its octets are the address bytes and the bytes
/// of its port are the port bytes, whatever the byte order of the host.
pub fn socketaddr_from_sockaddr(addr: &SockAddr) -> (r: Option<SocketAddr>)
    ensures
        r == socketaddr_of(*addr),
        r matches Some(typed) ==> sockaddr_of(typed) == native_form(*addr),
{
    proof {
        lemma_socketaddr_round_trip(*addr);
    }
    match addr {
        SockAddr::Inet(sin) => {
            let octets = &sin.sin_addr;
            let ip = Ipv4Addr::new(octets[0], octets[1], octets[2], octets[3]);
            let port: u16 = port_from_bytes(&sin.sin_port);
            Some(SocketAddr::V4(SocketAddrV4 { ip, port }))
        },
        SockAddr::Inet6(sin6) => {
            let ip = Ipv6Addr { octets: sin6.sin6_addr };
            let port: u16 = port_from_bytes(&sin6.sin6_port);
            Some(
                SocketAddr::V6(
                    SocketAddrV6 {
                        ip,
                        port,
                        flowinfo: sin6.sin6_flowinfo,
                        scope_id: sin6.sin6_scope_id,
                    },
                ),
            )
        },
        SockAddr::Other(_) => None,
    }
}

/// A native structure of the IPv4 or IPv6 family converts to a typed
/// address that gives back the bytes of the structure: the octets of the
/// address are the address bytes, the bytes of the port are the port
/// bytes, and flow and scope are the numbers that stood in the structure.
/// A structure of another family converts to nothing.
pub proof fn lemma_socketaddr_round_trip(addr: SockAddr)
    ensures
        addr is Other <==> socketaddr_of(addr) is None,
        socketaddr_of(addr) matches Some(typed) ==> sockaddr_of(typed) == native_form(addr),
{
    match addr {
        SockAddr::Inet(sin) => {
            let a = sin.sin_addr;
            let p = sin.sin_port;
            lemma_ipv4_octets_of_bits(a[0], a[1], a[2], a[3]);
            lemma_port_bytes_of_port(p[0], p[1]);
            assert(a@ =~= seq![a[0], a[1], a[2], a[3]]);
            assert(p@ =~= seq![p[0], p[1]]);
        },
        SockAddr::Inet6(sin6) => {
            let p = sin6.sin6_port;
            lemma_port_bytes_of_port(p[0], p[1]);
            assert(p@ =~= seq![p[0], p[1]]);
        },
        SockAddr::Other(_) => {},
    }
}

/// One entry of a native address list: four pointers, each read where it
/// was set and absent where it was null.
#[derive(Clone, Copy, Debug, PartialEq, Eq)]
pub struct PcapAddr {
    pub addr: Option<SockAddr>,
    pub netmask: Option<SockAddr>,
    pub broadaddr: Option<SockAddr>,
    pub dstaddr: Option<SockAddr>,
}

/// The addresses of one entry of an interface.
#[derive(Clone, Copy, Debug, PartialEq, Eq)]
pub struct Address {
    pub address: Option<SocketAddr>,
    pub netmask: Option<SocketAddr>,
    pub broadcast: Option<SocketAddr>,
    pub destination: Option<SocketAddr>,
}

/// What one field of an entry converts to: nothing where the pointer was
/// null or the family is not read.
pub open spec fn field_of(field: Option<SockAddr>) -> Option<SocketAddr> {
    match field {
        Some(addr) => socketaddr_of(addr),
        None => None,
    }
}

/// The addresses that a native entry converts to: each of its four fields,
/// converted by itself.
pub open spec fn address_of(entry: PcapAddr) -> Address {
    Address {
        address: field_of(entry.addr),
        netmask: field_of(entry.netmask),
        broadcast: field_of(entry.broadaddr),
        destination: field_of(entry.dstaddr),
    }
}

fn convert_field(field: &Option<SockAddr>) -> (r: Option<SocketAddr>)
    ensures
        r == field_of(*field),
{
    match field {
        Some(addr) => socketaddr_from_sockaddr(addr),
        None => None,
    }
}

impl From<PcapAddr> for Address {
    /// Converts the four fields of a native entry, each by itself.
    fn from(addr: PcapAddr) -> (r: Address) {
        Address {
            address: convert_field(&addr.addr),
            netmask: convert_field(&addr.netmask),
            broadcast: convert_field(&addr.broadaddr),
            destination: convert_field(&addr.dstaddr),
        }
    }
}

impl FromSpecImpl<PcapAddr> for Address {
    open spec fn obeys_from_spec() -> bool {
        true
    }

    open spec fn from_spec(addr: PcapAddr) -> Address {
        address_of(addr)
    }
}

/// What conversion makes of each field of an entry: a field whose pointer
/// was null is absent, and so is one of a family that is not read; a field
/// that held an IPv4 or IPv6 structure is present and holds exactly what
/// the structure held.
pub proof fn lemma_address_fields(entry: PcapAddr)
    ensures
        field_converted(entry.addr, address_of(entry).address),
        field_converted(entry.netmask, address_of(entry).netmask),
        field_converted(entry.broadaddr, address_of(entry).broadcast),
        field_converted(entry.dstaddr, address_of(entry).destination),
{
    if entry.addr is Some {
        lemma_socketaddr_round_trip(entry.addr->0);
    }
    if entry.netmask is Some {
        lemma_socketaddr_round_trip(entry.netmask->0);
    }
    if entry.broadaddr is Some {
        lemma_socketaddr_round_trip(entry.broadaddr->0);
    }
    if entry.dstaddr is Some {
        lemma_socketaddr_round_trip(entry.dstaddr->0);
    }
}

/// `typed` is what a native field `native` converts to.
pub open spec fn field_converted(native: Option<SockAddr>, typed: Option<SocketAddr>) -> bool {
    match native {
        None => typed is None,
        Some(SockAddr::Other(_)) => typed is None,
        Some(addr) => typed is Some && sockaddr_of(typed->0) == native_form(addr),
    }
}

} // verus!
