use pcap_core::{
    find_all_devs, Address, ErrBuf, IfFlags, Ipv4Addr, NetworkInterface, NetworkInterfaceIterator,
    PcapAddr, PcapIf, SockAddr, SockAddrIn, SocketAddr, SocketAddrV4, PCAP_IF_LOOPBACK,
    PCAP_IF_RUNNING, PCAP_IF_UP,
};

fn node(name: &str, flags: u32) -> PcapIf {
    PcapIf { name: name.as_bytes().to_vec(), description: None, addresses: Vec::new(), flags }
}

fn list(n: usize) -> Vec<PcapIf> {
    (0..n).map(|i| node(&format!("eth{}", i), PCAP_IF_UP)).collect()
}

#[test]
fn flag_bits_are_those_of_the_engine() {
    assert_eq!(PCAP_IF_LOOPBACK, 1);
    assert_eq!(PCAP_IF_UP, 2);
    assert_eq!(PCAP_IF_RUNNING, 4);
}

#[test]
fn unknown_flag_bits_are_dropped() {
    assert_eq!(IfFlags::from_bits_truncate(0).bits, 0);
    assert_eq!(IfFlags::from_bits_truncate(7).bits, 7);
    assert_eq!(IfFlags::from_bits_truncate(0xffff_ffff).bits, 7);
    assert_eq!(IfFlags::from_bits_truncate(0x18 | PCAP_IF_UP).bits, PCAP_IF_UP);
    assert_eq!(IfFlags::from_bits_truncate(8).bits, 0);
}

#[test]
fn flag_set_contains_its_subsets() {
    let flags = IfFlags::from_bits_truncate(PCAP_IF_UP | PCAP_IF_RUNNING);
    assert!(flags.contains(IfFlags { bits: PCAP_IF_UP }));
    assert!(flags.contains(IfFlags { bits: PCAP_IF_RUNNING }));
    assert!(flags.contains(IfFlags { bits: PCAP_IF_UP | PCAP_IF_RUNNING }));
    assert!(flags.contains(IfFlags { bits: 0 }));
    assert!(!flags.contains(IfFlags { bits: PCAP_IF_LOOPBACK }));
    assert!(!flags.contains(IfFlags { bits: PCAP_IF_LOOPBACK | PCAP_IF_UP }));
}

#[test]
fn interface_copies_name_description_and_flags() {
    let raw = PcapIf {
        name: b"lo".to_vec(),
        description: Some(b"Loopback device".to_vec()),
        addresses: Vec::new(),
        flags: PCAP_IF_LOOPBACK | PCAP_IF_UP | PCAP_IF_RUNNING | 0x10,
    };
    let interface = NetworkInterface::from(&raw);
    assert_eq!(interface.name(), "lo");
    assert_eq!(interface.description(), Some("Loopback device"));
    assert!(interface.addresses().is_empty());
    assert!(interface.is_loopback());
    assert!(interface.is_up());
    assert!(interface.is_running());
}

#[test]
fn interface_without_description_has_none() {
    let interface = NetworkInterface::from(&node("wlan0", PCAP_IF_UP));
    assert_eq!(interface.name(), "wlan0");
    assert_eq!(interface.description(), None);
    assert!(!interface.is_loopback());
    assert!(interface.is_up());
    assert!(!interface.is_running());
}

#[test]
fn interface_flags_are_read_one_by_one() {
    let only_running = NetworkInterface::from(&node("a", PCAP_IF_RUNNING));
    assert!(!only_running.is_loopback() && !only_running.is_up() && only_running.is_running());
    let only_loopback = NetworkInterface::from(&node("b", PCAP_IF_LOOPBACK));
    assert!(only_loopback.is_loopback() && !only_loopback.is_up() && !only_loopback.is_running());
    let none = NetworkInterface::from(&node("c", 0xffff_fff8));
    assert!(!none.is_loopback() && !none.is_up() && !none.is_running());
}

#[test]
fn interface_name_that_is_not_text_is_decoded_lossily() {
    let raw = PcapIf {
        name: vec![b'e', b'n', 0xff, b'0'],
        description: Some(vec![0xc0]),
        addresses: Vec::new(),
        flags: 0,
    };
    let interface = NetworkInterface::from(&raw);
    assert_eq!(interface.name(), "en\u{fffd}0");
    assert_eq!(interface.description(), Some("\u{fffd}"));
}

#[test]
fn interface_addresses_keep_the_order_of_the_list() {
    let entry = |bits: u32| PcapAddr {
        addr: Some(SockAddr::Inet(SockAddrIn { sin_port: [0, 0], sin_addr: bits.to_be_bytes() })),
        netmask: None,
        broadaddr: None,
        dstaddr: None,
    };
    let raw = PcapIf {
        name: b"eth0".to_vec(),
        description: None,
        addresses: vec![entry(1), entry(2), entry(3)],
        flags: 0,
    };
    let interface = NetworkInterface::from(&raw);
    let expected: Vec<Address> = [1u32, 2, 3]
        .iter()
        .map(|bits| Address {
            address: Some(SocketAddr::V4(SocketAddrV4 { ip: Ipv4Addr { bits: *bits }, port: 0 })),
            netmask: None,
            broadcast: None,
            destination: None,
        })
        .collect();
    assert_eq!(interface.addresses(), &expected[..]);
}

#[test]
fn iteration_yields_one_interface_for_each_node() {
    for n in [0usize, 1, 2, 5, 17] {
        let mut it = NetworkInterfaceIterator::new(list(n));
        let mut seen = Vec::new();
        while let Some(interface) = it.next() {
            seen.push(interface.name().to_string());
        }
        let expected: Vec<String> = (0..n).map(|i| format!("eth{}", i)).collect();
        assert_eq!(seen, expected);
    }
}

#[test]
fn exhausted_iterator_stays_exhausted() {
    let mut it = NetworkInterfaceIterator::new(list(1));
    assert!(it.next().is_some());
    assert!(it.next().is_none());
    assert!(it.next().is_none());
    let mut empty = NetworkInterfaceIterator::new(Vec::new());
    assert!(empty.next().is_none());
}

#[test]
fn collect_gathers_what_is_left() {
    let mut it = NetworkInterfaceIterator::new(list(4));
    assert_eq!(it.next().map(|i| i.name().to_string()), Some(String::from("eth0")));
    let rest = it.collect();
    let names: Vec<&str> = rest.iter().map(|i| i.name()).collect();
    assert_eq!(names, vec!["eth1", "eth2", "eth3"]);
    assert!(NetworkInterfaceIterator::new(Vec::new()).collect().is_empty());
}

#[test]
fn listing_that_succeeded_iterates_over_every_node() {
    for n in [0usize, 1, 3, 8] {
        match find_all_devs(0, list(n), ErrBuf::new()) {
            Ok(it) => assert_eq!(it.collect().len(), n),
            Err(e) => panic!("unexpected {:?}", e),
        }
    }
}

#[test]
fn listing_that_failed_is_an_error_with_the_status() {
    let mut bytes = vec![0u8; 256];
    bytes[..9].copy_from_slice(b"no access");
    match find_all_devs(-1, list(2), ErrBuf::from_bytes(bytes)) {
        Ok(_) => panic!("a failed listing gave an iterator"),
        Err(e) => {
            assert_eq!(e.code(), -1);
            assert_eq!(e.message(), Some("no access"));
        }
    }
    match find_all_devs(3, Vec::new(), ErrBuf::from_bytes(vec![b'x'; 4])) {
        Ok(_) => panic!("a failed listing gave an iterator"),
        Err(e) => {
            assert_eq!(e.code(), 3);
            assert_eq!(e.message(), None);
        }
    }
}

#[test]
fn it_works() {
    match find_all_devs(0, list(2), ErrBuf::new()) {
        Ok(mut pcap_ifs) => {
            while let Some(interface) = pcap_ifs.next() {
                println!("{:?}", interface);
            }
        }
        Err(e) => println!("{:?}", e),
    }
    assert_eq!(2 + 2, 4);
}
