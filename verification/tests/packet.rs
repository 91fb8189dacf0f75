use artpoll::addr::{Ipv4Address, SocketAddress};
use artpoll::packet::{
    artpoll_addr_primary, artpoll_addr_secondary, build, ArtPoll, OpCodes, PriorityCodes,
    ARTNET_VERSION, ARTPOLL_FLAGS, ARTPOLL_LENGTH, ARTPOLL_UDP_PORT,
};

#[test]
fn build_low_priority_gives_the_documented_bytes() {
    let bytes = build(PriorityCodes::DpLow);
    assert_eq!(
        bytes,
        [0x41, 0x72, 0x74, 0x2d, 0x4e, 0x65, 0x74, 0x00, 0x00, 0x20, 0x00, 0x0e, 0x04, 0x10]
    );
}

#[test]
fn build_is_fourteen_bytes_with_fixed_fields() {
    let all = [
        (PriorityCodes::DpLow, 0x10u8),
        (PriorityCodes::DpMed, 0x40u8),
        (PriorityCodes::DpHigh, 0x80u8),
        (PriorityCodes::DpCritical, 0xe0u8),
        (PriorityCodes::DpVolatile, 0xf0u8),
    ];
    for (priority, byte) in all {
        let bytes = build(priority);
        assert_eq!(bytes.len(), 14);
        assert_eq!(bytes.len(), ARTPOLL_LENGTH);
        assert_eq!(&bytes[0..8], b"Art-Net\0");
        assert_eq!(u16::from_le_bytes([bytes[8], bytes[9]]), 0x2000);
        assert_eq!(u16::from_be_bytes([bytes[10], bytes[11]]), 14);
        assert_eq!(bytes[12], 0b0000_0100);
        assert_eq!(bytes[13], byte);
        assert_eq!(bytes[13], priority.code());
    }
}

#[test]
fn build_twice_gives_the_same_bytes() {
    assert_eq!(build(PriorityCodes::DpHigh), build(PriorityCodes::DpHigh));
    assert_eq!(build(PriorityCodes::DpVolatile), build(PriorityCodes::DpVolatile));
    assert_ne!(build(PriorityCodes::DpLow), build(PriorityCodes::DpMed));
}

#[test]
fn build_agrees_with_std_byte_orders() {
    let bytes = build(PriorityCodes::DpMed);
    assert_eq!([bytes[8], bytes[9]], OpCodes::OpPoll.code().to_le_bytes());
    assert_eq!([bytes[10], bytes[11]], ARTNET_VERSION.to_be_bytes());
}

#[test]
fn constants_have_their_protocol_values() {
    assert_eq!(ARTNET_VERSION, 14);
    assert_eq!(ARTPOLL_UDP_PORT, 0x1936);
    assert_eq!(ARTPOLL_UDP_PORT, 6454);
    assert_eq!(ARTPOLL_LENGTH, 14);
    assert_eq!(ARTPOLL_FLAGS, 4);
}

#[test]
fn priority_codes_have_their_bytes() {
    assert_eq!(PriorityCodes::DpLow.code(), 0x10);
    assert_eq!(PriorityCodes::DpMed.code(), 0x40);
    assert_eq!(PriorityCodes::DpHigh.code(), 0x80);
    assert_eq!(PriorityCodes::DpCritical.code(), 0xe0);
    assert_eq!(PriorityCodes::DpVolatile.code(), 0xf0);
}

#[test]
fn op_codes_have_their_values() {
    let table = [
        (OpCodes::OpPoll, 0x2000u16),
        (OpCodes::OpPollReply, 0x2100),
        (OpCodes::OpDiagData, 0x2300),
        (OpCodes::OpCommand, 0x2400),
        (OpCodes::OpDataRequest, 0x2700),
        (OpCodes::OpDataReply, 0x2800),
        (OpCodes::OpDmx, 0x5000),
        (OpCodes::OpNzs, 0x5100),
        (OpCodes::OpSync, 0x5200),
        (OpCodes::OpAddress, 0x6000),
        (OpCodes::OpInput, 0x7000),
        (OpCodes::OpTodRequest, 0x8000),
        (OpCodes::OpTodData, 0x8100),
        (OpCodes::OpTodControl, 0x8200),
        (OpCodes::OpRdm, 0x8300),
        (OpCodes::OpRdmSub, 0x8400),
        (OpCodes::OpVideoSetup, 0xa010),
        (OpCodes::OpVideoPalette, 0xa020),
        (OpCodes::OpVideoData, 0xa040),
        (OpCodes::OpMacMaster, 0xf000),
        (OpCodes::OpMacSlave, 0xf100),
        (OpCodes::OpFirmwareMaster, 0xf200),
        (OpCodes::OpFirmwareReply, 0xf300),
        (OpCodes::OpFileTnMaster, 0xf400),
        (OpCodes::OpFileFnMaster, 0xf500),
        (OpCodes::OpFileFnReply, 0xf600),
        (OpCodes::OpIpProg, 0xf800),
        (OpCodes::OpIpProgReply, 0xf900),
        (OpCodes::OpMedia, 0x9000),
        (OpCodes::OpMediaPatch, 0x9100),
        (OpCodes::OpMediaControl, 0x9200),
        (OpCodes::OpMediaContrlReply, 0x9300),
        (OpCodes::OpTimeCode, 0x9700),
        (OpCodes::OpTimeSync, 0x9800),
        (OpCodes::OpTrigger, 0x9900),
        (OpCodes::OpDirectory, 0x9a00),
        (OpCodes::OpDirectoryReply, 0x9b00),
    ];
    for (op, value) in table {
        assert_eq!(op.code(), value);
    }
}

#[test]
fn broadcast_endpoints_are_the_well_known_ones() {
    assert_eq!(
        artpoll_addr_primary(),
        SocketAddress { ip: Ipv4Address { a: 2, b: 255, c: 255, d: 255 }, port: 6454 }
    );
    assert_eq!(
        artpoll_addr_secondary(),
        SocketAddress { ip: Ipv4Address { a: 10, b: 255, c: 255, d: 255 }, port: 6454 }
    );
}

#[test]
fn addresses_keep_their_octets() {
    let a = Ipv4Address::new(192, 168, 1, 5);
    assert_eq!(a.octets(), [192, 168, 1, 5]);
    assert_eq!(a, Ipv4Address { a: 192, b: 168, c: 1, d: 5 });
    let s = SocketAddress::new(a, 80);
    assert_eq!(s.ip, a);
    assert_eq!(s.port, 80);
}

#[test]
fn pollers_differ_only_in_their_endpoint() {
    let from = Ipv4Address::new(192, 168, 1, 5);
    let primary = ArtPoll::_primary(from);
    let secondary = ArtPoll::secondary(from);
    let usual = ArtPoll::default(from);
    assert_eq!(primary.broadcast_addr, from);
    assert_eq!(primary.poll_addr, artpoll_addr_primary());
    assert_eq!(secondary.broadcast_addr, from);
    assert_eq!(secondary.poll_addr, artpoll_addr_secondary());
    assert_eq!(usual, secondary);
    assert_ne!(usual, primary);
}

#[test]
fn poll_describes_one_low_priority_broadcast() {
    let from = Ipv4Address::new(10, 0, 0, 7);
    let t = ArtPoll::default(from).poll();
    assert_eq!(t.bind, SocketAddress::new(from, 0x1936));
    assert!(t.broadcast);
    assert!(!t.multicast_loop);
    assert_eq!(t.target, SocketAddress::new(Ipv4Address::new(10, 255, 255, 255), 0x1936));
    assert_eq!(t.payload, build(PriorityCodes::DpLow));
    assert_eq!(t.payload[13], 0x10);

    let p = ArtPoll::_primary(from).poll();
    assert_eq!(p.target, SocketAddress::new(Ipv4Address::new(2, 255, 255, 255), 0x1936));
    assert_eq!(p.payload, t.payload);
}
