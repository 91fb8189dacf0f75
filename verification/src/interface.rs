//! Interface records: what the host reports of each interface, and the
//! decoded form that selection works on.

use vstd::prelude::*;
use crate::addr::Ipv4Address;
use crate::error::ArtNetError;
use crate::flags::{has_flag, IFF};

verus! {

/// A socket address as the host stores it: an address family and fourteen
/// bytes whose meaning depends on the family.
#[derive(Clone, Copy, Debug)]
pub struct SockAddr {
    pub sa_family: u16,
    pub sa_data: [i8; 14],
}

/// One entry of the host's interface list, undecoded.
#[derive(Clone, Debug)]
pub struct InterfaceRecord {
    pub name: String,
    pub flags: u32,
    pub addr: Option<SockAddr>,
    pub netmask: Option<SockAddr>,
}

/// One interface of the host: its name, its IPv4 address and mask where it
/// has them, and its flag word as the host reported it.
#[derive(Clone, Debug)]
pub struct NetworkInterface {
    pub name: String,
    pub addr: Option<Ipv4Address>,
    pub _subnet_mask: Option<Ipv4Address>,
    pub flags: u32,
}

/// The value of a `NetworkInterface`.
pub struct InterfaceView {
    pub name: Seq<char>,
    pub addr: Option<Ipv4Address>,
    pub subnet_mask: Option<Ipv4Address>,
    pub flags: u32,
}

impl View for NetworkInterface {
    type V = InterfaceView;

    open spec fn view(&self) -> InterfaceView {
        InterfaceView {
            name: self.name@,
            addr: self.addr,
            subnet_mask: self._subnet_mask,
            flags: self.flags,
        }
    }
}

/// The address family of IPv4, as the host's socket addresses carry it.
pub open spec fn spec_af_inet() -> i32 {
    2
}

/// `libc::AF_INET`, the address family of IPv4. Claimed: its value is 2, as it
/// is on every target for which libc defines all the interface flags that
/// this library names.
#[verifier::external_body]
fn af_inet() -> (r: i32)
    ensures
        r == spec_af_inet(),
{
    libc::AF_INET
}

/// The unsigned byte with the bit pattern of a signed one.
pub open spec fn spec_octet(b: i8) -> u8 {
    if b >= 0 {
        b as u8
    } else {
        (b + 256) as u8
    }
}

/// The unsigned byte with the bit pattern of a signed one.
pub fn octet(b: i8) -> (r: u8)
    ensures
        r == spec_octet(b),
{
    if b >= 0 {
        b as u8
    } else {
        (b as i16 + 256) as u8
    }
}

/// The IPv4 address in a socket address: bytes 2 to 5 of its data where the
/// family is IPv4, and none for any other family or where there is no socket
/// address at all.
pub open spec fn spec_addr_from_sockaddr(sock: Option<SockAddr>) -> Option<Ipv4Address> {
    match sock {
        None => None,
        Some(s) => if s.sa_family as int == spec_af_inet() {
            Some(
                Ipv4Address {
                    a: spec_octet(s.sa_data[2]),
                    b: spec_octet(s.sa_data[3]),
                    c: spec_octet(s.sa_data[4]),
                    d: spec_octet(s.sa_data[5]),
                },
            )
        } else {
            None
        },
    }
}

/// Decodes the IPv4 address in a socket address, if it holds one.
pub fn addr_from_sockaddr(sock: &Option<SockAddr>) -> (r: Option<Ipv4Address>)
    ensures
        r == spec_addr_from_sockaddr(*sock),
{
    match sock {
        None => None,
        Some(s) => {
            if s.sa_family as i32 == af_inet() {
                Some(
                    Ipv4Address::new(
                        octet(s.sa_data[2]),
                        octet(s.sa_data[3]),
                        octet(s.sa_data[4]),
                        octet(s.sa_data[5]),
                    ),
                )
            } else {
                None
            }
        },
    }
}

impl InterfaceRecord {
    /// What this record decodes to.
    pub open spec fn unpacked(self) -> InterfaceView {
        InterfaceView {
            name: self.name@,
            addr: spec_addr_from_sockaddr(self.addr),
            subnet_mask: spec_addr_from_sockaddr(self.netmask),
            flags: self.flags,
        }
    }
}

/// What a list of records decodes to, entry by entry.
pub open spec fn unpacked_all(records: Seq<InterfaceRecord>) -> Seq<InterfaceView> {
    Seq::new(records.len(), |i: int| records[i].unpacked())
}

/// Decodes one record: the name and the flag word are taken over as they are,
/// address and mask are decoded from their socket addresses.
pub fn unpack_interface(record: &InterfaceRecord) -> (r: NetworkInterface)
    ensures
        r@ == record.unpacked(),
{
    NetworkInterface {
        name: record.name.clone(),
        addr: addr_from_sockaddr(&record.addr),
        _subnet_mask: addr_from_sockaddr(&record.netmask),
        flags: record.flags,
    }
}

impl NetworkInterface {
    /// Whether the flag word has the bit of `flag` set.
    pub fn get_flag(&self, flag: IFF) -> (r: bool)
        ensures
            r == has_flag(self.flags, flag),
    {
        (self.flags & flag.mask()) != 0
    }

    /// Starts a pass over the interfaces that the host listed. `status` is
    /// what the host answered when asked for the list, zero for success;
    /// with any other status there is no list to go through.
    pub fn get_interfaces_iter(status: i32, records: Vec<InterfaceRecord>) -> (r: Result<
        NetworkInterfaceIter,
        ArtNetError,
    >)
        ensures
            status == 0 ==> r is Ok && r->Ok_0.remaining() == unpacked_all(records@),
            status != 0 ==> r is Err && r->Err_0 == ArtNetError::EnumerationFailed,
    {
        if status == 0 {
            let it = NetworkInterfaceIter { records, pos: 0 };
            assert(it.remaining() =~= unpacked_all(records@));
            Ok(it)
        } else {
            Err(ArtNetError::EnumerationFailed)
        }
    }
}

/// A single pass over the host's interfaces, in the order of the host's list.
pub struct NetworkInterfaceIter {
    records: Vec<InterfaceRecord>,
    pos: usize,
}

impl NetworkInterfaceIter {
    /// The interfaces still to come, next one first.
    pub closed spec fn remaining(&self) -> Seq<InterfaceView> {
        if self.pos <= self.records@.len() {
            unpacked_all(self.records@.subrange(self.pos as int, self.records@.len() as int))
        } else {
            Seq::empty()
        }
    }

    /// Hands out the next interface, decoded, and moves past it; none once
    /// the list is exhausted.
    pub fn next(&mut self) -> (r: Option<NetworkInterface>)
        ensures
            old(self).remaining().len() == 0 ==> r is None && final(self).remaining()
                == old(self).remaining(),
            old(self).remaining().len() > 0 ==> r is Some && r->Some_0@ == old(
                self,
            ).remaining()[0] && final(self).remaining() == old(self).remaining().drop_first(),
    {
        if self.pos < self.records.len() {
            let item = unpack_interface(&self.records[self.pos]);
            self.pos = self.pos + 1;
            assert(final(self).remaining() =~= old(self).remaining().drop_first());
            Some(item)
        } else {
            None
        }
    }
}

} // verus!
