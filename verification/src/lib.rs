//! The decisions of a packet-capture session, kept apart from the engine
//! that captures.
//!
//! Nothing here touches native memory. A driver makes the engine's calls and
//! hands over what came back as plain values: status codes, byte buffers,
//! copied records. This crate turns them into owned, typed values (errors,
//! interfaces and their addresses, packet headers) and says in its contracts
//! exactly what it makes of each.

pub mod text;
pub mod error;
pub mod addr;
pub mod iface;
pub mod packet;
pub mod handle;

pub use crate::addr::{
    address_family, classify_family, socketaddr_from_sockaddr, Address, AddressFamily, Ipv4Addr,
    Ipv6Addr, PcapAddr, SockAddr, SockAddrIn, SockAddrIn6, SocketAddr, SocketAddrV4, SocketAddrV6,
};
pub use crate::error::{ErrBuf, Error};
pub use crate::handle::{
    create, flag_arg, open_live, snaplen_arg, Handle, HandleLifetime, LoopBreaker, State,
};
pub use crate::iface::{
    find_all_devs, IfFlags, NetworkInterface, NetworkInterfaceIterator, PcapIf, PCAP_IF_LOOPBACK,
    PCAP_IF_RUNNING, PCAP_IF_UP,
};
pub use crate::packet::{got_packet, PacketHeader, PcapPkthdr, TimeStamp};
pub use crate::text::{c_str_bytes, c_string, find_nul, is_c_text};
