use artpoll::addr::Ipv4Address;
use artpoll::error::ArtNetError;
use artpoll::flags::IFF;
use artpoll::interface::{
    addr_from_sockaddr, octet, unpack_interface, InterfaceRecord, NetworkInterface, SockAddr,
};
use artpoll::select::{
    ethernet_name, get_likely_broadcast_addr, get_possible_interfaces, possible,
};

fn inet(a: u8, b: u8, c: u8, d: u8) -> SockAddr {
    let mut data = [0i8; 14];
    data[2] = a as i8;
    data[3] = b as i8;
    data[4] = c as i8;
    data[5] = d as i8;
    SockAddr { sa_family: libc::AF_INET as u16, sa_data: data }
}

fn usable() -> u32 {
    IFF::UP.mask() | IFF::BROADCAST.mask() | IFF::MULTICAST.mask() | IFF::RUNNING.mask()
}

fn record(name: &str, flags: u32, addr: Option<SockAddr>) -> InterfaceRecord {
    InterfaceRecord {
        name: name.to_string(),
        flags,
        addr,
        netmask: addr.map(|_| inet(255, 255, 255, 0)),
    }
}

fn select(records: Vec<InterfaceRecord>) -> Result<Ipv4Address, ArtNetError> {
    get_likely_broadcast_addr(NetworkInterface::get_interfaces_iter(0, records).unwrap())
}

#[test]
fn flag_masks_are_those_of_the_host() {
    let table = [
        (IFF::UP, libc::IFF_UP, 0x1u32),
        (IFF::BROADCAST, libc::IFF_BROADCAST, 0x2),
        (IFF::DEBUG, libc::IFF_DEBUG, 0x4),
        (IFF::LOOPBACK, libc::IFF_LOOPBACK, 0x8),
        (IFF::POINTOPOINT, libc::IFF_POINTOPOINT, 0x10),
        (IFF::NOTRAILERS, libc::IFF_NOTRAILERS, 0x20),
        (IFF::RUNNING, libc::IFF_RUNNING, 0x40),
        (IFF::NOARP, libc::IFF_NOARP, 0x80),
        (IFF::PROMISC, libc::IFF_PROMISC, 0x100),
        (IFF::ALLMULTI, libc::IFF_ALLMULTI, 0x200),
        (IFF::MASTER, libc::IFF_MASTER, 0x400),
        (IFF::SLAVE, libc::IFF_SLAVE, 0x800),
        (IFF::MULTICAST, libc::IFF_MULTICAST, 0x1000),
        (IFF::PORTSEL, libc::IFF_PORTSEL, 0x2000),
        (IFF::AUTOMEDIA, libc::IFF_AUTOMEDIA, 0x4000),
        (IFF::DYNAMIC, libc::IFF_DYNAMIC, 0x8000),
        (IFF::LOWER_UP, libc::IFF_LOWER_UP, 0x10000),
        (IFF::DORMANT, libc::IFF_DORMANT, 0x20000),
        (IFF::ECHO, libc::IFF_ECHO, 0x40000),
    ];
    for (flag, host, value) in table {
        assert_eq!(flag.mask(), host as u32);
        assert_eq!(flag.mask(), value);
    }
}

#[test]
fn get_flag_reads_single_bits() {
    let i = NetworkInterface {
        name: "en0".to_string(),
        addr: None,
        _subnet_mask: None,
        flags: 0x1 | 0x40,
    };
    assert!(i.get_flag(IFF::UP));
    assert!(i.get_flag(IFF::RUNNING));
    assert!(!i.get_flag(IFF::BROADCAST));
    assert!(!i.get_flag(IFF::LOOPBACK));
    assert!(!i.get_flag(IFF::MULTICAST));
    assert!(!i.get_flag(IFF::ECHO));
}

#[test]
fn octet_keeps_the_bit_pattern() {
    assert_eq!(octet(0), 0);
    assert_eq!(octet(5), 5);
    assert_eq!(octet(127), 127);
    assert_eq!(octet(-128), 128);
    assert_eq!(octet(-64), 192);
    assert_eq!(octet(-1), 255);
    for b in i8::MIN..=i8::MAX {
        assert_eq!(octet(b), b as u8);
    }
}

#[test]
fn addr_from_sockaddr_decodes_ipv4() {
    assert_eq!(
        addr_from_sockaddr(&Some(inet(192, 168, 1, 5))),
        Some(Ipv4Address::new(192, 168, 1, 5))
    );
    assert_eq!(
        addr_from_sockaddr(&Some(inet(255, 255, 255, 0))),
        Some(Ipv4Address::new(255, 255, 255, 0))
    );
    let mut data = [9i8; 14];
    data[2] = 10;
    data[3] = -1;
    data[4] = 0;
    data[5] = -128;
    assert_eq!(
        addr_from_sockaddr(&Some(SockAddr { sa_family: 2, sa_data: data })),
        Some(Ipv4Address::new(10, 255, 0, 128))
    );
}

#[test]
fn addr_from_sockaddr_gives_none_for_other_families() {
    let mut other = inet(192, 168, 1, 5);
    other.sa_family = libc::AF_INET6 as u16;
    assert_eq!(addr_from_sockaddr(&Some(other)), None);
    other.sa_family = libc::AF_PACKET as u16;
    assert_eq!(addr_from_sockaddr(&Some(other)), None);
    other.sa_family = 0;
    assert_eq!(addr_from_sockaddr(&Some(other)), None);
    assert_eq!(addr_from_sockaddr(&None), None);
}

#[test]
fn unpack_interface_decodes_each_field() {
    let r = InterfaceRecord {
        name: "enp3s0".to_string(),
        flags: 0x11043,
        addr: Some(inet(172, 16, 0, 9)),
        netmask: Some(inet(255, 255, 0, 0)),
    };
    let i = unpack_interface(&r);
    assert_eq!(i.name, "enp3s0");
    assert_eq!(i.flags, 0x11043);
    assert_eq!(i.addr, Some(Ipv4Address::new(172, 16, 0, 9)));
    assert_eq!(i._subnet_mask, Some(Ipv4Address::new(255, 255, 0, 0)));

    let mut v6 = inet(1, 2, 3, 4);
    v6.sa_family = libc::AF_INET6 as u16;
    let i = unpack_interface(&InterfaceRecord {
        name: "lo".to_string(),
        flags: 0x49,
        addr: Some(v6),
        netmask: None,
    });
    assert_eq!(i.name, "lo");
    assert_eq!(i.flags, 0x49);
    assert_eq!(i.addr, None);
    assert_eq!(i._subnet_mask, None);
}

#[test]
fn a_failed_listing_is_reported() {
    let r = NetworkInterface::get_interfaces_iter(-1, Vec::new());
    assert!(matches!(r, Err(ArtNetError::EnumerationFailed)));
    let r = NetworkInterface::get_interfaces_iter(
        1,
        vec![record("en0", usable(), Some(inet(192, 168, 1, 5)))],
    );
    assert!(matches!(r, Err(ArtNetError::EnumerationFailed)));
}

#[test]
fn a_pass_hands_out_each_interface_once_in_order() {
    let mut it = NetworkInterface::get_interfaces_iter(
        0,
        vec![
            record("lo", 0x49, Some(inet(127, 0, 0, 1))),
            record("en0", usable(), Some(inet(192, 168, 1, 5))),
            record("wlan0", usable(), None),
        ],
    )
    .unwrap();
    let first = it.next().unwrap();
    assert_eq!(first.name, "lo");
    assert_eq!(first.addr, Some(Ipv4Address::new(127, 0, 0, 1)));
    let second = it.next().unwrap();
    assert_eq!(second.name, "en0");
    assert_eq!(second.addr, Some(Ipv4Address::new(192, 168, 1, 5)));
    assert_eq!(second._subnet_mask, Some(Ipv4Address::new(255, 255, 255, 0)));
    assert_eq!(second.flags, usable());
    let third = it.next().unwrap();
    assert_eq!(third.name, "wlan0");
    assert_eq!(third.addr, None);
    assert!(it.next().is_none());
    assert!(it.next().is_none());
}

#[test]
fn possible_asks_for_an_address_and_the_five_flags() {
    let make = |flags: u32, addr: Option<Ipv4Address>| NetworkInterface {
        name: "x".to_string(),
        addr,
        _subnet_mask: None,
        flags,
    };
    let a = Some(Ipv4Address::new(192, 168, 1, 5));
    assert!(possible(&make(usable(), a)));
    assert!(possible(&make(usable() | IFF::PROMISC.mask() | IFF::LOWER_UP.mask(), a)));
    assert!(!possible(&make(usable(), None)));
    assert!(!possible(&make(usable() | IFF::LOOPBACK.mask(), a)));
    assert!(!possible(&make(usable() & !IFF::UP.mask(), a)));
    assert!(!possible(&make(usable() & !IFF::BROADCAST.mask(), a)));
    assert!(!possible(&make(usable() & !IFF::MULTICAST.mask(), a)));
    assert!(!possible(&make(usable() & !IFF::RUNNING.mask(), a)));
    assert!(!possible(&make(0, a)));
}

#[test]
fn ethernet_names_begin_with_en() {
    assert!(ethernet_name("en0"));
    assert!(ethernet_name("en"));
    assert!(ethernet_name("enp0s31f6"));
    assert!(ethernet_name("en\u{e9}"));
    assert!(!ethernet_name(""));
    assert!(!ethernet_name("e"));
    assert!(!ethernet_name("eth0"));
    assert!(!ethernet_name("wlan0"));
    assert!(!ethernet_name("lo0"));
    assert!(!ethernet_name("En0"));
    assert!(!ethernet_name("\u{e9}n0"));
    for name in ["en0", "", "e", "eth0", "xen0", "en"] {
        assert_eq!(ethernet_name(name), name.starts_with("en"));
    }
}

#[test]
fn get_possible_interfaces_keeps_the_usable_ones_in_order() {
    let it = NetworkInterface::get_interfaces_iter(
        0,
        vec![
            record("lo", usable() | IFF::LOOPBACK.mask(), Some(inet(127, 0, 0, 1))),
            record("wlan0", usable(), Some(inet(10, 1, 2, 3))),
            record("en1", usable(), None),
            record("en2", IFF::UP.mask(), Some(inet(10, 9, 9, 9))),
            record("en0", usable(), Some(inet(192, 168, 1, 5))),
        ],
    )
    .unwrap();
    let kept = get_possible_interfaces(it);
    assert_eq!(kept.len(), 2);
    assert_eq!(kept[0].name, "wlan0");
    assert_eq!(kept[0].addr, Some(Ipv4Address::new(10, 1, 2, 3)));
    assert_eq!(kept[1].name, "en0");
    assert_eq!(kept[1].addr, Some(Ipv4Address::new(192, 168, 1, 5)));
}

#[test]
fn get_possible_interfaces_takes_only_what_is_left_of_a_pass() {
    let mut it = NetworkInterface::get_interfaces_iter(
        0,
        vec![
            record("en0", usable(), Some(inet(192, 168, 1, 5))),
            record("en1", usable(), Some(inet(192, 168, 1, 6))),
        ],
    )
    .unwrap();
    it.next();
    let kept = get_possible_interfaces(it);
    assert_eq!(kept.len(), 1);
    assert_eq!(kept[0].name, "en1");
}

#[test]
fn selection_takes_en0_and_rejects_the_loopback() {
    let lo = IFF::UP.mask() | IFF::LOOPBACK.mask() | IFF::RUNNING.mask();
    let both = vec![
        record("en0", usable(), Some(inet(192, 168, 1, 5))),
        record("lo0", lo, Some(inet(127, 0, 0, 1))),
    ];
    assert_eq!(select(both), Ok(Ipv4Address::new(192, 168, 1, 5)));
    let swapped = vec![
        record("lo0", lo, Some(inet(127, 0, 0, 1))),
        record("en0", usable(), Some(inet(192, 168, 1, 5))),
    ];
    assert_eq!(select(swapped), Ok(Ipv4Address::new(192, 168, 1, 5)));
    let alone = vec![record("lo0", lo, Some(inet(127, 0, 0, 1)))];
    assert_eq!(select(alone), Err(ArtNetError::NoInterfaceFound));
}

#[test]
fn selection_of_an_empty_list_finds_nothing() {
    assert_eq!(select(Vec::new()), Err(ArtNetError::NoInterfaceFound));
    let it = NetworkInterface::get_interfaces_iter(0, Vec::new()).unwrap();
    assert!(get_possible_interfaces(it).is_empty());
}

#[test]
fn selection_passes_over_an_interface_without_address() {
    let list = vec![record("en0", usable(), None)];
    assert_eq!(select(list), Err(ArtNetError::NoInterfaceFound));
    let list = vec![
        record("en0", usable(), None),
        record("en1", usable(), Some(inet(10, 0, 0, 2))),
    ];
    assert_eq!(select(list), Ok(Ipv4Address::new(10, 0, 0, 2)));
    let mut v6 = inet(1, 2, 3, 4);
    v6.sa_family = libc::AF_INET6 as u16;
    assert_eq!(
        select(vec![record("en0", usable(), Some(v6))]),
        Err(ArtNetError::NoInterfaceFound)
    );
}

#[test]
fn selection_takes_the_first_match_in_list_order() {
    let list = vec![
        record("wlan0", usable(), Some(inet(10, 0, 0, 1))),
        record("en5", usable(), Some(inet(10, 0, 0, 5))),
        record("en0", usable(), Some(inet(10, 0, 0, 0))),
    ];
    assert_eq!(select(list), Ok(Ipv4Address::new(10, 0, 0, 5)));
    let list = vec![
        record("en0", usable(), Some(inet(10, 0, 0, 0))),
        record("en5", usable(), Some(inet(10, 0, 0, 5))),
    ];
    assert_eq!(select(list), Ok(Ipv4Address::new(10, 0, 0, 0)));
}

#[test]
fn selection_asks_for_every_flag_and_the_name() {
    let a = Some(inet(192, 168, 1, 5));
    assert_eq!(select(vec![record("eth0", usable(), a)]), Err(ArtNetError::NoInterfaceFound));
    for missing in [IFF::UP, IFF::BROADCAST, IFF::MULTICAST, IFF::RUNNING] {
        let flags = usable() & !missing.mask();
        assert_eq!(select(vec![record("en0", flags, a)]), Err(ArtNetError::NoInterfaceFound));
    }
    let looped = usable() | IFF::LOOPBACK.mask();
    assert_eq!(select(vec![record("en0", looped, a)]), Err(ArtNetError::NoInterfaceFound));
    let extra = usable() | IFF::LOWER_UP.mask() | IFF::PROMISC.mask();
    assert_eq!(select(vec![record("en0", extra, a)]), Ok(Ipv4Address::new(192, 168, 1, 5)));
}

#[test]
fn selection_is_the_same_on_the_same_list() {
    let list = || {
        vec![
            record("lo", 0x49, Some(inet(127, 0, 0, 1))),
            record("en1", usable(), Some(inet(10, 0, 0, 2))),
            record("en0", usable(), Some(inet(10, 0, 0, 1))),
        ]
    };
    let first = select(list());
    let second = select(list());
    assert_eq!(first, second);
    assert_eq!(first, Ok(Ipv4Address::new(10, 0, 0, 2)));
}

#[test]
fn selection_agrees_with_the_first_possible_ethernet_interface() {
    let list = || {
        vec![
            record("wlan0", usable(), Some(inet(10, 0, 0, 9))),
            record("en3", usable(), None),
            record("en4", usable(), Some(inet(10, 0, 0, 4))),
        ]
    };
    let kept =
        get_possible_interfaces(NetworkInterface::get_interfaces_iter(0, list()).unwrap());
    let by_filter = kept.iter().find(|i| i.name.starts_with("en")).and_then(|i| i.addr);
    assert_eq!(select(list()).ok(), by_filter);
}

#[test]
fn errors_have_their_messages() {
    assert_eq!(ArtNetError::NoInterfaceFound.message(), "No address found");
    assert_eq!(ArtNetError::EnumerationFailed.message(), "Could not list interfaces");
    assert_eq!(ArtNetError::SocketSetupFailed.message(), "Failed to bind to ArtPoll address");
    assert_eq!(ArtNetError::SendFailed.message(), "Failed to send ArtPoll");
}
