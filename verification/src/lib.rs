//! Art-Net discovery: choosing a broadcast-capable interface and encoding the
//! ArtPoll datagram that asks lighting nodes to identify themselves.
//!
//! Everything here works on plain values. Reading the host's interface list,
//! opening sockets and sleeping are left to the caller, which feeds what it
//! read into these functions and carries out what they decide.

pub mod addr;
pub mod broadcast;
pub mod error;
pub mod flags;
pub mod interface;
pub mod packet;
pub mod select;
