//! The ArtPoll datagram: its constants, its byte layout, and the request that
//! sends it.

use vstd::prelude::*;
use crate::addr::{Ipv4Address, SocketAddress};

verus! {

/// Protocol revision announced in every datagram.
pub const ARTNET_VERSION: u16 = 14;

/// UDP port of all Art-Net traffic.
pub const ARTPOLL_UDP_PORT: u16 = 0x1936;

/// Length of the ArtPoll datagram in its minimal form.
pub const ARTPOLL_LENGTH: usize = 14;

/// Behaviour flags of the poll: nodes report again whenever their status changes.
pub const ARTPOLL_FLAGS: u8 = 0b0000_0100;

/// Operation codes of the protocol.
#[derive(Clone, Copy, Debug, PartialEq, Eq, Structural)]
pub enum OpCodes {
    OpPoll,
    OpPollReply,
    OpDiagData,
    OpCommand,
    OpDataRequest,
    OpDataReply,
    OpDmx,
    OpNzs,
    OpSync,
    OpAddress,
    OpInput,
    OpTodRequest,
    OpTodData,
    OpTodControl,
    OpRdm,
    OpRdmSub,
    OpVideoSetup,
    OpVideoPalette,
    OpVideoData,
    OpMacMaster,
    OpMacSlave,
    OpFirmwareMaster,
    OpFirmwareReply,
    OpFileTnMaster,
    OpFileFnMaster,
    OpFileFnReply,
    OpIpProg,
    OpIpProgReply,
    OpMedia,
    OpMediaPatch,
    OpMediaControl,
    OpMediaContrlReply,
    OpTimeCode,
    OpTimeSync,
    OpTrigger,
    OpDirectory,
    OpDirectoryReply,
}

impl OpCodes {
    /// The 16-bit value that stands for this operation on the wire.
    pub open spec fn spec_code(self) -> u16 {
        match self {
            OpCodes::OpPoll => 0x2000,
            OpCodes::OpPollReply => 0x2100,
            OpCodes::OpDiagData => 0x2300,
            OpCodes::OpCommand => 0x2400,
            OpCodes::OpDataRequest => 0x2700,
            OpCodes::OpDataReply => 0x2800,
            OpCodes::OpDmx => 0x5000,
            OpCodes::OpNzs => 0x5100,
            OpCodes::OpSync => 0x5200,
            OpCodes::OpAddress => 0x6000,
            OpCodes::OpInput => 0x7000,
            OpCodes::OpTodRequest => 0x8000,
            OpCodes::OpTodData => 0x8100,
            OpCodes::OpTodControl => 0x8200,
            OpCodes::OpRdm => 0x8300,
            OpCodes::OpRdmSub => 0x8400,
            OpCodes::OpVideoSetup => 0xa010,
            OpCodes::OpVideoPalette => 0xa020,
            OpCodes::OpVideoData => 0xa040,
            OpCodes::OpMacMaster => 0xf000,
            OpCodes::OpMacSlave => 0xf100,
            OpCodes::OpFirmwareMaster => 0xf200,
            OpCodes::OpFirmwareReply => 0xf300,
            OpCodes::OpFileTnMaster => 0xf400,
            OpCodes::OpFileFnMaster => 0xf500,
            OpCodes::OpFileFnReply => 0xf600,
            OpCodes::OpIpProg => 0xf800,
            OpCodes::OpIpProgReply => 0xf900,
            OpCodes::OpMedia => 0x9000,
            OpCodes::OpMediaPatch => 0x9100,
            OpCodes::OpMediaControl => 0x9200,
            OpCodes::OpMediaContrlReply => 0x9300,
            OpCodes::OpTimeCode => 0x9700,
            OpCodes::OpTimeSync => 0x9800,
            OpCodes::OpTrigger => 0x9900,
            OpCodes::OpDirectory => 0x9a00,
            OpCodes::OpDirectoryReply => 0x9b00,
        }
    }

    /// The 16-bit value that stands for this operation on the wire.
    pub fn code(&self) -> (r: u16)
        ensures
            r == self.spec_code(),
    {
        match self {
            OpCodes::OpPoll => 0x2000,
            OpCodes::OpPollReply => 0x2100,
            OpCodes::OpDiagData => 0x2300,
            OpCodes::OpCommand => 0x2400,
            OpCodes::OpDataRequest => 0x2700,
            OpCodes::OpDataReply => 0x2800,
            OpCodes::OpDmx => 0x5000,
            OpCodes::OpNzs => 0x5100,
            OpCodes::OpSync => 0x5200,
            OpCodes::OpAddress => 0x6000,
            OpCodes::OpInput => 0x7000,
            OpCodes::OpTodRequest => 0x8000,
            OpCodes::OpTodData => 0x8100,
            OpCodes::OpTodControl => 0x8200,
            OpCodes::OpRdm => 0x8300,
            OpCodes::OpRdmSub => 0x8400,
            OpCodes::OpVideoSetup => 0xa010,
            OpCodes::OpVideoPalette => 0xa020,
            OpCodes::OpVideoData => 0xa040,
            OpCodes::OpMacMaster => 0xf000,
            OpCodes::OpMacSlave => 0xf100,
            OpCodes::OpFirmwareMaster => 0xf200,
            OpCodes::OpFirmwareReply => 0xf300,
            OpCodes::OpFileTnMaster => 0xf400,
            OpCodes::OpFileFnMaster => 0xf500,
            OpCodes::OpFileFnReply => 0xf600,
            OpCodes::OpIpProg => 0xf800,
            OpCodes::OpIpProgReply => 0xf900,
            OpCodes::OpMedia => 0x9000,
            OpCodes::OpMediaPatch => 0x9100,
            OpCodes::OpMediaControl => 0x9200,
            OpCodes::OpMediaContrlReply => 0x9300,
            OpCodes::OpTimeCode => 0x9700,
            OpCodes::OpTimeSync => 0x9800,
            OpCodes::OpTrigger => 0x9900,
            OpCodes::OpDirectory => 0x9a00,
            OpCodes::OpDirectoryReply => 0x9b00,
        }
    }
}

/// Diagnostic priority levels: the lowest severity a node should report.
#[derive(Clone, Copy, Debug, PartialEq, Eq, Structural)]
pub enum PriorityCodes {
    DpLow,
    DpMed,
    DpHigh,
    DpCritical,
    DpVolatile,
}

impl PriorityCodes {
    /// The byte that stands for this level on the wire.
    pub open spec fn spec_code(self) -> u8 {
        match self {
            PriorityCodes::DpLow => 0x10,
            PriorityCodes::DpMed => 0x40,
            PriorityCodes::DpHigh => 0x80,
            PriorityCodes::DpCritical => 0xe0,
            PriorityCodes::DpVolatile => 0xf0,
        }
    }

    /// The byte that stands for this level on the wire.
    pub fn code(&self) -> (r: u8)
        ensures
            r == self.spec_code(),
    {
        match self {
            PriorityCodes::DpLow => 0x10,
            PriorityCodes::DpMed => 0x40,
            PriorityCodes::DpHigh => 0x80,
            PriorityCodes::DpCritical => 0xe0,
            PriorityCodes::DpVolatile => 0xf0,
        }
    }
}

/// The eight bytes that open every datagram: `Art-Net` and a zero byte.
pub open spec fn artnet_id() -> Seq<u8> {
    seq![0x41u8, 0x72u8, 0x74u8, 0x2du8, 0x4eu8, 0x65u8, 0x74u8, 0x00u8]
}

/// A 16-bit value as two bytes, least significant first.
pub open spec fn le_bytes(x: u16) -> Seq<u8> {
    seq![(x % 256) as u8, (x / 256) as u8]
}

/// A 16-bit value as two bytes, most significant first.
pub open spec fn be_bytes(x: u16) -> Seq<u8> {
    seq![(x / 256) as u8, (x % 256) as u8]
}

/// The value that two bytes stand for, least significant first.
pub open spec fn from_le_bytes(lo: u8, hi: u8) -> int {
    lo + 256 * hi
}

/// The value that two bytes stand for, most significant first.
pub open spec fn from_be_bytes(hi: u8, lo: u8) -> int {
    256 * hi + lo
}

/// The ArtPoll datagram for a priority: signature, opcode (little-endian),
/// protocol version (big-endian), flags, priority.
pub open spec fn artpoll_bytes(priority: PriorityCodes) -> Seq<u8> {
    artnet_id() + le_bytes(OpCodes::OpPoll.spec_code()) + be_bytes(ARTNET_VERSION)
        + seq![ARTPOLL_FLAGS] + seq![priority.spec_code()]
}

/// Encodes the ArtPoll datagram that asks for diagnostics from `priority` upwards.
pub fn build(priority: PriorityCodes) -> (r: [u8; 14])
    ensures
        r@ == artpoll_bytes(priority),
{
    let op: u16 = OpCodes::OpPoll.code();
    let r: [u8; 14] = [
        0x41,
        0x72,
        0x74,
        0x2d,
        0x4e,
        0x65,
        0x74,
        0x00,
        (op % 256) as u8,
        (op / 256) as u8,
        (ARTNET_VERSION / 256) as u8,
        (ARTNET_VERSION % 256) as u8,
        ARTPOLL_FLAGS,
        priority.code(),
    ];
    assert(r@ =~= artpoll_bytes(priority));
    r
}

/// The fixed layout of the datagram: fourteen bytes, of which the first eight
/// are the signature, the next two the poll opcode with the low byte first,
/// the next two the protocol version with the high byte first, then the flags
/// byte and the byte of the priority asked for.
pub proof fn lemma_artpoll_layout(priority: PriorityCodes)
    ensures
        artpoll_bytes(priority).len() == 14,
        artpoll_bytes(priority).subrange(0, 8) == artnet_id(),
        from_le_bytes(artpoll_bytes(priority)[8], artpoll_bytes(priority)[9]) == 0x2000,
        from_be_bytes(artpoll_bytes(priority)[10], artpoll_bytes(priority)[11]) == 14,
        artpoll_bytes(priority)[12] == 0b0000_0100,
        artpoll_bytes(priority)[13] == priority.spec_code(),
{
    assert(artpoll_bytes(priority).subrange(0, 8) =~= artnet_id());
}

/// Two encodings of one priority are the same bytes: the datagram depends on
/// nothing but the priority.
pub proof fn lemma_build_repeatable(priority: PriorityCodes, first: [u8; 14], second: [u8; 14])
    requires
        first@ == artpoll_bytes(priority),
        second@ == artpoll_bytes(priority),
    ensures
        first == second,
{
    assert(first@ =~= second@);
    vstd::array::axiom_array_ext_equal(first, second);
}

/// The primary broadcast endpoint, `2.255.255.255` on the Art-Net port.
pub open spec fn spec_artpoll_addr_primary() -> SocketAddress {
    SocketAddress { ip: Ipv4Address { a: 2, b: 255, c: 255, d: 255 }, port: ARTPOLL_UDP_PORT }
}

/// The secondary broadcast endpoint, `10.255.255.255` on the Art-Net port.
pub open spec fn spec_artpoll_addr_secondary() -> SocketAddress {
    SocketAddress { ip: Ipv4Address { a: 10, b: 255, c: 255, d: 255 }, port: ARTPOLL_UDP_PORT }
}

/// The primary broadcast endpoint, `2.255.255.255` on the Art-Net port.
#[verifier::when_used_as_spec(spec_artpoll_addr_primary)]
pub fn artpoll_addr_primary() -> (r: SocketAddress)
    ensures
        r == spec_artpoll_addr_primary(),
{
    SocketAddress::new(Ipv4Address::new(2, 255, 255, 255), ARTPOLL_UDP_PORT)
}

/// The secondary broadcast endpoint, `10.255.255.255` on the Art-Net port.
#[verifier::when_used_as_spec(spec_artpoll_addr_secondary)]
pub fn artpoll_addr_secondary() -> (r: SocketAddress)
    ensures
        r == spec_artpoll_addr_secondary(),
{
    SocketAddress::new(Ipv4Address::new(10, 255, 255, 255), ARTPOLL_UDP_PORT)
}

/// One datagram ready to go out: where the socket is bound, how it is set up,
/// where the datagram goes and what it holds.
#[derive(Clone, Copy, Debug)]
pub struct Transmission {
    /// Local endpoint the socket is bound to.
    pub bind: SocketAddress,
    /// Whether the socket may send to broadcast addresses.
    pub broadcast: bool,
    /// Whether multicast datagrams sent are looped back to the host.
    pub multicast_loop: bool,
    /// Destination of the datagram.
    pub target: SocketAddress,
    /// The datagram.
    pub payload: [u8; 14],
}

/// A poller: the local address polls leave from and the endpoint they go to.
#[derive(Clone, Copy, Debug, PartialEq, Eq, Structural)]
pub struct ArtPoll {
    pub broadcast_addr: Ipv4Address,
    pub poll_addr: SocketAddress,
}

impl ArtPoll {
    /// A poller that sends from `broadcast_addr` to the primary endpoint.
    pub fn _primary(broadcast_addr: Ipv4Address) -> (r: Self)
        ensures
            r == (ArtPoll { broadcast_addr, poll_addr: artpoll_addr_primary() }),
    {
        ArtPoll { broadcast_addr, poll_addr: artpoll_addr_primary() }
    }

    /// A poller that sends from `broadcast_addr` to the secondary endpoint.
    pub fn secondary(broadcast_addr: Ipv4Address) -> (r: Self)
        ensures
            r == (ArtPoll { broadcast_addr, poll_addr: artpoll_addr_secondary() }),
    {
        ArtPoll { broadcast_addr, poll_addr: artpoll_addr_secondary() }
    }

    /// The usual poller: it sends to the secondary endpoint.
    pub fn default(broadcast_addr: Ipv4Address) -> (r: Self)
        ensures
            r == (ArtPoll { broadcast_addr, poll_addr: artpoll_addr_secondary() }),
    {
        ArtPoll::secondary(broadcast_addr)
    }

    /// One poll: a socket bound to the poller's address on the Art-Net port,
    /// with broadcast switched on and multicast loopback switched off, and a
    /// low-priority ArtPoll datagram for the poller's endpoint.
    pub fn poll(&self) -> (r: Transmission)
        ensures
            r.bind == (SocketAddress { ip: self.broadcast_addr, port: ARTPOLL_UDP_PORT }),
            r.broadcast,
            !r.multicast_loop,
            r.target == self.poll_addr,
            r.payload@ == artpoll_bytes(PriorityCodes::DpLow),
    {
        Transmission {
            bind: SocketAddress::new(self.broadcast_addr, ARTPOLL_UDP_PORT),
            broadcast: true,
            multicast_loop: false,
            target: self.poll_addr,
            payload: build(PriorityCodes::DpLow),
        }
    }
}

} // verus!
