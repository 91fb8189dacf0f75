//! What can go wrong between looking for an interface and sending a poll.

use vstd::prelude::*;

verus! {

/// The ways a discovery attempt fails.
#[derive(Clone, Copy, Debug, PartialEq, Eq, Structural)]
pub enum ArtNetError {
    /// The host could not produce its list of interfaces.
    EnumerationFailed,
    /// No interface passed the selection rules.
    NoInterfaceFound,
    /// Binding the socket or setting one of its options failed.
    SocketSetupFailed,
    /// A datagram could not be sent.
    SendFailed,
}

impl ArtNetError {
    /// The text shown for this error.
    pub open spec fn spec_message(self) -> Seq<char> {
        match self {
            ArtNetError::EnumerationFailed => "Could not list interfaces"@,
            ArtNetError::NoInterfaceFound => "No address found"@,
            ArtNetError::SocketSetupFailed => "Failed to bind to ArtPoll address"@,
            ArtNetError::SendFailed => "Failed to send ArtPoll"@,
        }
    }

    /// The text shown for this error.
    pub fn message(&self) -> (r: &'static str)
        ensures
            r@ == self.spec_message(),
    {
        match self {
            ArtNetError::EnumerationFailed => "Could not list interfaces",
            ArtNetError::NoInterfaceFound => "No address found",
            ArtNetError::SocketSetupFailed => "Failed to bind to ArtPoll address",
            ArtNetError::SendFailed => "Failed to send ArtPoll",
        }
    }
}

} // verus!
