//! Captured packets: the header of each, and the bridge that hands a packet
//! to the caller's own code.

use vstd::prelude::*;
use vstd::std_specs::convert::FromSpecImpl;

verus! {

/// The time of a capture: seconds since the epoch, and microseconds within
/// the second.
#[derive(Clone, Copy, Debug, PartialEq, Eq, Structural)]
pub struct TimeStamp {
    pub sec: i64,
    pub usec: i64,
}

impl TimeStamp {
    /// The microseconds lie within one second.
    pub open spec fn wf(&self) -> bool {
        0 <= self.usec < 1_000_000
    }

    /// Whether the microseconds lie within one second.
    pub fn is_valid(&self) -> (r: bool)
        ensures
            r == self.wf(),
    {
        0 <= self.usec && self.usec < 1_000_000
    }

    /// The time as an offset from the epoch: whole seconds, and nanoseconds
    /// within the second.
    pub fn since_epoch(&self) -> (r: (u64, u32))
        requires
            self.wf(),
            self.sec >= 0,
        ensures
            r.0 == self.sec,
            r.1 == self.usec * 1000,
            r.1 < 1_000_000_000,
    {
        (self.sec as u64, (self.usec * 1000) as u32)
    }
}

/// The engine's header of one packet, copied out of native memory.
#[derive(Clone, Copy, Debug, PartialEq, Eq, Structural)]
pub struct PcapPkthdr {
    pub tv_sec: i64,
    pub tv_usec: i64,
    pub caplen: u32,
    pub len: u32,
}

/// The header of a delivered packet: when it was captured, how many of its
/// bytes were captured, and how many it had on the wire.
#[derive(Clone, Copy, Debug, PartialEq, Eq, Structural)]
pub struct PacketHeader {
    pub ts: TimeStamp,
    pub caplen: u32,
    pub len: u32,
}

/// The owned header that a native header stands for.
pub open spec fn header_of(header: PcapPkthdr) -> PacketHeader {
    PacketHeader {
        ts: TimeStamp { sec: header.tv_sec, usec: header.tv_usec },
        caplen: header.caplen,
        len: header.len,
    }
}

/// The captured bytes of a packet whose buffer is `buffer`: the first
/// `caplen` of them, or all where the buffer holds fewer.
pub open spec fn captured(caplen: u32, buffer: Seq<u8>) -> Seq<u8> {
    if caplen <= buffer.len() {
        buffer.take(caplen as int)
    } else {
        buffer
    }
}

impl From<PcapPkthdr> for PacketHeader {
    /// Copies a native header field by field.
    fn from(header: PcapPkthdr) -> (r: PacketHeader) {
        PacketHeader {
            ts: TimeStamp { sec: header.tv_sec, usec: header.tv_usec },
            caplen: header.caplen,
            len: header.len,
        }
    }
}

impl FromSpecImpl<PcapPkthdr> for PacketHeader {
    open spec fn obeys_from_spec() -> bool {
        true
    }

    open spec fn from_spec(header: PcapPkthdr) -> PacketHeader {
        header_of(header)
    }
}

impl PacketHeader {
    /// Whether fewer bytes were captured than the packet had on the wire.
    pub fn is_truncated(&self) -> (r: bool)
        ensures
            r == (self.caplen < self.len),
    {
        self.caplen < self.len
    }

    /// The captured bytes within the packet's buffer.
    pub fn payload<'a>(&self, buffer: &'a [u8]) -> (r: &'a [u8])
        ensures
            r@ == captured(self.caplen, buffer@),
    {
        if self.caplen as usize <= buffer.len() {
            let r = &buffer[0..self.caplen as usize];
            assert(r@ =~= buffer@.take(self.caplen as int));
            r
        } else {
            buffer
        }
    }
}

/// Hands one packet to the caller's code. `header` is the engine's header
/// of the packet and `packet` its buffer. Where the packet was truncated,
/// `warn` is first told the length on the wire and the captured length;
/// that is a warning and no failure. Then `f` gets the owned header and the
/// captured bytes, never more than were captured.
pub fn got_packet<W: FnMut(u32, u32), F: FnMut(PacketHeader, &[u8])>(
    header: &PcapPkthdr,
    packet: &[u8],
    warn: &mut W,
    f: &mut F,
)
    requires
        header.caplen < header.len ==> call_requires(*old(warn), (header.len, header.caplen)),
        forall|bytes: &[u8]|
            bytes@ == captured(header.caplen, packet@) ==> call_requires(
                *old(f),
                (header_of(*header), bytes),
            ),
    ensures
        header.caplen < header.len ==> call_ensures(*old(warn), (header.len, header.caplen), ()),
        exists|bytes: &[u8]|
            bytes@ == captured(header.caplen, packet@) && call_ensures(
                *old(f),
                (header_of(*header), bytes),
                (),
            ),
{
    let owned = PacketHeader::from(*header);
    if owned.is_truncated() {
        warn(owned.len, owned.caplen);
    }
    let bytes = owned.payload(packet);
    f(owned, bytes);
}

} // verus!
