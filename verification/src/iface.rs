//! Network interfaces: the records of the engine's device list, and the
//! owned interfaces made of them one at a time.

use vstd::prelude::*;
use crate::addr::{address_of, Address, PcapAddr};
use crate::error::{errbuf_bytes, is_error, ErrBuf, Error};
use crate::text::{decode_lossy, keeps_well_formed, lossy_utf8};

verus! {

/// The bit that marks a loopback interface.
pub const PCAP_IF_LOOPBACK: u32 = 1;

/// The bit that marks an interface that is up.
pub const PCAP_IF_UP: u32 = 2;

/// The bit that marks an interface that is running.
pub const PCAP_IF_RUNNING: u32 = 4;

/// Trusted: the constant `pcap_sys::PCAP_IF_LOOPBACK`, which is 1.
#[verifier::external_body]
fn native_if_loopback() -> (bit: u32)
    ensures
        bit == PCAP_IF_LOOPBACK,
{
    pcap_sys::PCAP_IF_LOOPBACK
}

/// Trusted: the constant `pcap_sys::PCAP_IF_UP`, which is 2.
#[verifier::external_body]
fn native_if_up() -> (bit: u32)
    ensures
        bit == PCAP_IF_UP,
{
    pcap_sys::PCAP_IF_UP
}

/// Trusted: the constant `pcap_sys::PCAP_IF_RUNNING`, which is 4.
#[verifier::external_body]
fn native_if_running() -> (bit: u32)
    ensures
        bit == PCAP_IF_RUNNING,
{
    pcap_sys::PCAP_IF_RUNNING
}

/// The known flags among `bits`: loopback, up and running. Every other bit
/// is dropped.
pub open spec fn known_flags(bits: u32) -> u32 {
    bits & (PCAP_IF_LOOPBACK | PCAP_IF_UP | PCAP_IF_RUNNING)
}

/// A set of interface flags.
#[derive(Clone, Copy, Debug, PartialEq, Eq, Structural)]
pub struct IfFlags {
    pub bits: u32,
}

impl IfFlags {
    /// The flags in `bits`, without the bits that name no flag.
    pub fn from_bits_truncate(bits: u32) -> (r: IfFlags)
        ensures
            r.bits == known_flags(bits),
    {
        let all: u32 = native_if_loopback() | native_if_up() | native_if_running();
        IfFlags { bits: bits & all }
    }

    /// Whether every flag of `other` is set in `self`.
    pub fn contains(&self, other: IfFlags) -> (r: bool)
        ensures
            r == (self.bits & other.bits == other.bits),
    {
        self.bits & other.bits == other.bits
    }
}

/// One node of the engine's device list, copied out of native memory: the
/// bytes of its name and of its description (without the terminating zero;
/// the description absent where its pointer was null), the entries of its
/// address list in order, and its flag word.
#[derive(Debug, PartialEq, Eq)]
pub struct PcapIf {
    pub name: Vec<u8>,
    pub description: Option<Vec<u8>>,
    pub addresses: Vec<PcapAddr>,
    pub flags: u32,
}

/// What a [`NetworkInterface`] holds, as mathematical values.
pub struct NetworkInterfaceView {
    pub name: Seq<char>,
    pub description: Option<Seq<char>>,
    pub addresses: Seq<Address>,
    pub flags: u32,
}

/// A network interface that packets can be captured on.
#[derive(Debug)]
pub struct NetworkInterface {
    name: String,
    description: Option<String>,
    addresses: Vec<Address>,
    flags: IfFlags,
}

impl View for NetworkInterface {
    type V = NetworkInterfaceView;

    closed spec fn view(&self) -> NetworkInterfaceView {
        NetworkInterfaceView {
            name: self.name@,
            description: match self.description {
                Some(d) => Some(d@),
                None => None,
            },
            addresses: self.addresses@,
            flags: self.flags.bits,
        }
    }
}

/// The interface that a node of the device list describes: its name and
/// description decoded lossily, each entry of its address list converted in
/// place, and its known flags.
pub open spec fn interface_of(node: PcapIf) -> NetworkInterfaceView {
    NetworkInterfaceView {
        name: lossy_utf8(node.name@),
        description: match node.description {
            Some(d) => Some(lossy_utf8(d@)),
            None => None,
        },
        addresses: Seq::new(node.addresses@.len(), |i: int| address_of(node.addresses@[i])),
        flags: known_flags(node.flags),
    }
}

/// The text of an interface keeps what was well formed in its node: a name
/// or a description whose bytes are well-formed UTF-8 is the text that they
/// encode.
pub open spec fn text_kept(node: PcapIf, interface: NetworkInterfaceView) -> bool {
    &&& keeps_well_formed(node.name@, interface.name)
    &&& match node.description {
        Some(d) => interface.description is Some && keeps_well_formed(
            d@,
            interface.description->0,
        ),
        None => interface.description is None,
    }
}

impl NetworkInterface {
    /// Copies a node of the device list into an owned interface.
    pub fn from(interface: &PcapIf) -> (r: NetworkInterface)
        ensures
            r@ == interface_of(*interface),
            text_kept(*interface, r@),
    {
        let if_name = decode_lossy(interface.name.as_slice());
        let mut addresses: Vec<Address> = Vec::new();
        let mut i: usize = 0;
        while i < interface.addresses.len()
            invariant
                i <= interface.addresses@.len(),
                addresses@.len() == i,
                forall|j: int|
                    0 <= j < i ==> addresses@[j] == address_of(interface.addresses@[j]),
            decreases interface.addresses@.len() - i,
        {
            addresses.push(Address::from(interface.addresses[i]));
            i += 1;
        }
        let description = match &interface.description {
            Some(desc) => Some(decode_lossy(desc.as_slice())),
            None => None,
        };
        let r = NetworkInterface {
            name: if_name,
            description,
            addresses,
            flags: IfFlags::from_bits_truncate(interface.flags),
        };
        assert(r@.addresses =~= interface_of(*interface).addresses);
        r
    }

    /// The name by which the engine opens the interface.
    pub fn name(&self) -> (r: &str)
        ensures
            r@ == self@.name,
    {
        self.name.as_str()
    }

    /// A description for people to read, where the engine has one.
    pub fn description(&self) -> (r: Option<&str>)
        ensures
            r is Some <==> self@.description is Some,
            r matches Some(d) ==> d@ == self@.description->0,
    {
        match &self.description {
            Some(d) => Some(d.as_str()),
            None => None,
        }
    }

    /// The addresses of the interface, in the order of the native list.
    pub fn addresses(&self) -> (r: &[Address])
        ensures
            r@ == self@.addresses,
    {
        self.addresses.as_slice()
    }

    /// Whether the loopback flag is set.
    pub fn is_loopback(&self) -> (r: bool)
        ensures
            r == (self@.flags & PCAP_IF_LOOPBACK == PCAP_IF_LOOPBACK),
    {
        self.flags.contains(IfFlags { bits: native_if_loopback() })
    }

    /// Whether the running flag is set.
    pub fn is_running(&self) -> (r: bool)
        ensures
            r == (self@.flags & PCAP_IF_RUNNING == PCAP_IF_RUNNING),
    {
        self.flags.contains(IfFlags { bits: native_if_running() })
    }

    /// Whether the up flag is set.
    pub fn is_up(&self) -> (r: bool)
        ensures
            r == (self@.flags & PCAP_IF_UP == PCAP_IF_UP),
    {
        self.flags.contains(IfFlags { bits: native_if_up() })
    }
}

/// The interfaces of a device list, handed out once each, front to back.
pub struct NetworkInterfaceIterator {
    devices: Vec<PcapIf>,
    next: usize,
}

impl NetworkInterfaceIterator {
    #[verifier::type_invariant]
    spec fn cursor_in_list(self) -> bool {
        self.next <= self.devices@.len()
    }

    /// The nodes that have not been handed out yet, in order.
    pub closed spec fn remaining(&self) -> Seq<PcapIf> {
        self.devices@.skip(self.next as int)
    }

    /// An iterator over the nodes of a device list.
    pub fn new(devices: Vec<PcapIf>) -> (r: NetworkInterfaceIterator)
        ensures
            r.remaining() == devices@,
    {
        let r = NetworkInterfaceIterator { devices, next: 0 };
        assert(r.devices@.skip(0) =~= devices@);
        r
    }

    /// Hands out the interface of the node under the cursor and moves the
    /// cursor on; nothing once the list is used up.
    pub fn next(&mut self) -> (r: Option<NetworkInterface>)
        ensures
            old(self).remaining().len() == 0 ==> r is None && final(self).remaining() == old(
                self,
            ).remaining(),
            old(self).remaining().len() > 0 ==> r is Some && r->0@ == interface_of(
                old(self).remaining()[0],
            ) && final(self).remaining() == old(self).remaining().drop_first(),
            old(self).remaining().len() > 0 ==> r is Some && text_kept(
                old(self).remaining()[0],
                r->0@,
            ),
    {
        proof {
            use_type_invariant(&*self);
        }
        if self.next < self.devices.len() {
            let interface = NetworkInterface::from(&self.devices[self.next]);
            self.next = self.next + 1;
            assert(self.devices@.skip(self.next as int) =~= old(self).devices@.skip(
                old(self).next as int,
            ).drop_first());
            Some(interface)
        } else {
            None
        }
    }

    /// Runs the iterator to its end and gathers what it hands out: one
    /// interface for each node that was left, in the order of the list.
    pub fn collect(self) -> (r: Vec<NetworkInterface>)
        ensures
            r@.len() == self.remaining().len(),
            forall|i: int|
                0 <= i < r@.len() ==> (#[trigger] r@[i])@ == interface_of(self.remaining()[i]),
            forall|i: int|
                0 <= i < r@.len() ==> text_kept(self.remaining()[i], (#[trigger] r@[i])@),
            Seq::new(r@.len(), |i: int| r@[i]@) == yielded(
                self.remaining(),
                self.remaining().len(),
            ),
    {
        let mut it = self;
        let mut out: Vec<NetworkInterface> = Vec::new();
        loop
            invariant
                out@.len() + it.remaining().len() == self.remaining().len(),
                forall|i: int|
                    0 <= i < it.remaining().len() ==> it.remaining()[i] == self.remaining()[out@.len()
                        + i],
                forall|i: int|
                    0 <= i < out@.len() ==> (#[trigger] out@[i])@ == interface_of(
                        self.remaining()[i],
                    ),
                forall|i: int|
                    0 <= i < out@.len() ==> text_kept(self.remaining()[i], (#[trigger] out@[i])@),
            decreases it.remaining().len(),
        {
            match it.next() {
                Some(interface) => {
                    out.push(interface);
                },
                None => {
                    proof {
                        let nodes = self.remaining();
                        lemma_iteration_yields_each_node_once(nodes, nodes.len());
                        assert(Seq::new(out@.len(), |i: int| out@[i]@) =~= yielded(
                            nodes,
                            nodes.len(),
                        ));
                    }
                    return out;
                },
            }
        }
    }
}

/// What the first `calls` calls of `next` hand out, of an iterator that has
/// `nodes` left: a call on an iterator with nothing left hands out nothing,
/// every other call the interface of the first node that is left.
pub open spec fn yielded(nodes: Seq<PcapIf>, calls: nat) -> Seq<NetworkInterfaceView>
    decreases calls,
{
    if calls == 0 || nodes.len() == 0 {
        Seq::empty()
    } else {
        seq![interface_of(nodes[0])] + yielded(nodes.drop_first(), (calls - 1) as nat)
    }
}

/// Iteration hands out each node once, in order, and then nothing: however
/// many calls are made on an iterator over N nodes, they hand out the
/// interfaces of the first nodes of the list, one for each call, and never
/// more than N. Iterated to its end, a list of N nodes gives exactly N
/// interfaces.
pub proof fn lemma_iteration_yields_each_node_once(nodes: Seq<PcapIf>, calls: nat)
    ensures
        yielded(nodes, calls).len() == if calls <= nodes.len() {
            calls
        } else {
            nodes.len()
        },
        forall|i: int|
            0 <= i < yielded(nodes, calls).len() ==> #[trigger] yielded(nodes, calls)[i]
                == interface_of(nodes[i]),
    decreases calls,
{
    if calls > 0 && nodes.len() > 0 {
        let rest = nodes.drop_first();
        lemma_iteration_yields_each_node_once(rest, (calls - 1) as nat);
        assert forall|i: int| 0 <= i < yielded(nodes, calls).len() implies #[trigger] yielded(
            nodes,
            calls,
        )[i] == interface_of(nodes[i]) by {
            if i > 0 {
                assert(yielded(nodes, calls)[i] == yielded(rest, (calls - 1) as nat)[i - 1]);
                assert(rest[i - 1] == nodes[i]);
            }
        }
    }
}

/// Settles a listing of all devices. `status` is what the engine's call
/// returned, `devices` the nodes of the list it gave, `err_buf` the error
/// buffer it was handed. Status zero gives an iterator over the nodes; any
/// other status is an error with that status as its code and the message of
/// the buffer.
pub fn find_all_devs(status: i32, devices: Vec<PcapIf>, err_buf: ErrBuf) -> (r: Result<
    NetworkInterfaceIterator,
    Error,
>)
    ensures
        status == 0 ==> r is Ok && r->Ok_0.remaining() == devices@,
        status != 0 ==> r is Err && is_error(r->Err_0@, status as int, errbuf_bytes(err_buf@)),
{
    if status == 0 {
        Ok(NetworkInterfaceIterator::new(devices))
    } else {
        Err(Error::new(err_buf, status))
    }
}

} // verus!
