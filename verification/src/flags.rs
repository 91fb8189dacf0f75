//! Interface flags: the bits of the host's flag word, by name.

use vstd::prelude::*;

verus! {

/// The named bits of an interface's flag word.
#[allow(nonstandard_style)]
#[derive(Clone, Copy, Debug, PartialEq, Eq, Structural)]
pub enum IFF {
    UP,
    BROADCAST,
    DEBUG,
    LOOPBACK,
    POINTOPOINT,
    NOTRAILERS,
    RUNNING,
    NOARP,
    PROMISC,
    ALLMULTI,
    MASTER,
    SLAVE,
    MULTICAST,
    PORTSEL,
    AUTOMEDIA,
    DYNAMIC,
    LOWER_UP,
    DORMANT,
    ECHO,
}

impl IFF {
    /// The bit of the flag word that this name stands for.
    pub open spec fn spec_mask(self) -> u32 {
        match self {
            IFF::UP => 0x1,
            IFF::BROADCAST => 0x2,
            IFF::DEBUG => 0x4,
            IFF::LOOPBACK => 0x8,
            IFF::POINTOPOINT => 0x10,
            IFF::NOTRAILERS => 0x20,
            IFF::RUNNING => 0x40,
            IFF::NOARP => 0x80,
            IFF::PROMISC => 0x100,
            IFF::ALLMULTI => 0x200,
            IFF::MASTER => 0x400,
            IFF::SLAVE => 0x800,
            IFF::MULTICAST => 0x1000,
            IFF::PORTSEL => 0x2000,
            IFF::AUTOMEDIA => 0x4000,
            IFF::DYNAMIC => 0x8000,
            IFF::LOWER_UP => 0x10000,
            IFF::DORMANT => 0x20000,
            IFF::ECHO => 0x40000,
        }
    }

    /// The bit of the flag word that this name stands for.
    pub fn mask(&self) -> (r: u32)
        ensures
            r == self.spec_mask(),
    {
        match self {
            IFF::UP => iff_up(),
            IFF::BROADCAST => iff_broadcast(),
            IFF::DEBUG => iff_debug(),
            IFF::LOOPBACK => iff_loopback(),
            IFF::POINTOPOINT => iff_pointopoint(),
            IFF::NOTRAILERS => iff_notrailers(),
            IFF::RUNNING => iff_running(),
            IFF::NOARP => iff_noarp(),
            IFF::PROMISC => iff_promisc(),
            IFF::ALLMULTI => iff_allmulti(),
            IFF::MASTER => iff_master(),
            IFF::SLAVE => iff_slave(),
            IFF::MULTICAST => iff_multicast(),
            IFF::PORTSEL => iff_portsel(),
            IFF::AUTOMEDIA => iff_automedia(),
            IFF::DYNAMIC => iff_dynamic(),
            IFF::LOWER_UP => iff_lower_up(),
            IFF::DORMANT => iff_dormant(),
            IFF::ECHO => iff_echo(),
        }
    }
}

/// Whether the flag word `flags` has the bit of `flag` set.
pub open spec fn has_flag(flags: u32, flag: IFF) -> bool {
    flags & flag.spec_mask() != 0
}

/// `libc::IFF_UP`: the interface is administratively up. Claimed: its value is
/// `0x1`, on every target for which libc defines all the flags named here.
#[verifier::external_body]
fn iff_up() -> (r: u32)
    ensures
        r == 0x1,
{
    libc::IFF_UP as u32
}

/// `libc::IFF_BROADCAST`: the interface has a valid broadcast address. Claimed:
/// its value is `0x2`, on every target for which libc defines all the flags
/// named here.
#[verifier::external_body]
fn iff_broadcast() -> (r: u32)
    ensures
        r == 0x2,
{
    libc::IFF_BROADCAST as u32
}

/// `libc::IFF_DEBUG`: debugging is switched on. Claimed: its value is `0x4`, on
/// every target for which libc defines all the flags named here.
#[verifier::external_body]
fn iff_debug() -> (r: u32)
    ensures
        r == 0x4,
{
    libc::IFF_DEBUG as u32
}

/// `libc::IFF_LOOPBACK`: the interface is a loopback. Claimed: its value is
/// `0x8`, on every target for which libc defines all the flags named here.
#[verifier::external_body]
fn iff_loopback() -> (r: u32)
    ensures
        r == 0x8,
{
    libc::IFF_LOOPBACK as u32
}

/// `libc::IFF_POINTOPOINT`: the interface is a point-to-point link. Claimed:
/// its value is `0x10`, on every target for which libc defines all the flags
/// named here.
#[verifier::external_body]
fn iff_pointopoint() -> (r: u32)
    ensures
        r == 0x10,
{
    libc::IFF_POINTOPOINT as u32
}

/// `libc::IFF_NOTRAILERS`: trailers are avoided. Claimed: its value is `0x20`,
/// on every target for which libc defines all the flags named here.
#[verifier::external_body]
fn iff_notrailers() -> (r: u32)
    ensures
        r == 0x20,
{
    libc::IFF_NOTRAILERS as u32
}

/// `libc::IFF_RUNNING`: the interface is operational. Claimed: its value is
/// `0x40`, on every target for which libc defines all the flags named here.
#[verifier::external_body]
fn iff_running() -> (r: u32)
    ensures
        r == 0x40,
{
    libc::IFF_RUNNING as u32
}

/// `libc::IFF_NOARP`: the interface has no address resolution. Claimed: its
/// value is `0x80`, on every target for which libc defines all the flags named
/// here.
#[verifier::external_body]
fn iff_noarp() -> (r: u32)
    ensures
        r == 0x80,
{
    libc::IFF_NOARP as u32
}

/// `libc::IFF_PROMISC`: the interface receives all packets. Claimed: its value
/// is `0x100`, on every target for which libc defines all the flags named here.
#[verifier::external_body]
fn iff_promisc() -> (r: u32)
    ensures
        r == 0x100,
{
    libc::IFF_PROMISC as u32
}

/// `libc::IFF_ALLMULTI`: the interface receives all multicast packets. Claimed:
/// its value is `0x200`, on every target for which libc defines all the flags
/// named here.
#[verifier::external_body]
fn iff_allmulti() -> (r: u32)
    ensures
        r == 0x200,
{
    libc::IFF_ALLMULTI as u32
}

/// `libc::IFF_MASTER`: the interface is the master of a bundle. Claimed: its
/// value is `0x400`, on every target for which libc defines all the flags named
/// here.
#[verifier::external_body]
fn iff_master() -> (r: u32)
    ensures
        r == 0x400,
{
    libc::IFF_MASTER as u32
}

/// `libc::IFF_SLAVE`: the interface is a member of a bundle. Claimed: its value
/// is `0x800`, on every target for which libc defines all the flags named here.
#[verifier::external_body]
fn iff_slave() -> (r: u32)
    ensures
        r == 0x800,
{
    libc::IFF_SLAVE as u32
}

/// `libc::IFF_MULTICAST`: the interface supports multicast. Claimed: its value
/// is `0x1000`, on every target for which libc defines all the flags named
/// here.
#[verifier::external_body]
fn iff_multicast() -> (r: u32)
    ensures
        r == 0x1000,
{
    libc::IFF_MULTICAST as u32
}

/// `libc::IFF_PORTSEL`: the media type can be selected. Claimed: its value is
/// `0x2000`, on every target for which libc defines all the flags named here.
#[verifier::external_body]
fn iff_portsel() -> (r: u32)
    ensures
        r == 0x2000,
{
    libc::IFF_PORTSEL as u32
}

/// `libc::IFF_AUTOMEDIA`: the media type is selected automatically. Claimed:
/// its value is `0x4000`, on every target for which libc defines all the flags
/// named here.
#[verifier::external_body]
fn iff_automedia() -> (r: u32)
    ensures
        r == 0x4000,
{
    libc::IFF_AUTOMEDIA as u32
}

/// `libc::IFF_DYNAMIC`: the addresses are lost when the interface goes down.
/// Claimed: its value is `0x8000`, on every target for which libc defines all
/// the flags named here.
#[verifier::external_body]
fn iff_dynamic() -> (r: u32)
    ensures
        r == 0x8000,
{
    libc::IFF_DYNAMIC as u32
}

/// `libc::IFF_LOWER_UP`: the driver signals that the link is up. Claimed: its
/// value is `0x10000`, on every target for which libc defines all the flags
/// named here.
#[verifier::external_body]
fn iff_lower_up() -> (r: u32)
    ensures
        r == 0x10000,
{
    libc::IFF_LOWER_UP as u32
}

/// `libc::IFF_DORMANT`: the driver signals that the link is dormant. Claimed:
/// its value is `0x20000`, on every target for which libc defines all the flags
/// named here.
#[verifier::external_body]
fn iff_dormant() -> (r: u32)
    ensures
        r == 0x20000,
{
    libc::IFF_DORMANT as u32
}

/// `libc::IFF_ECHO`: sent packets are echoed. Claimed: its value is `0x40000`,
/// on every target for which libc defines all the flags named here.
#[verifier::external_body]
fn iff_echo() -> (r: u32)
    ensures
        r == 0x40000,
{
    libc::IFF_ECHO as u32
}

} // verus!
