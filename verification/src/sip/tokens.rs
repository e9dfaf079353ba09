//! The small vocabulary of the protocol: methods, transports, versions.

use vstd::prelude::*;

verus! {

/// The method of a request.
#[derive(Clone, Copy, Debug, PartialEq, Eq, Structural)]
pub enum Method {
    Invite,
    Ack,
    Bye,
    Cancel,
    Register,
    Options,
    PRack,
    Subscribe,
    Notify,
    Publish,
    Info,
    Refer,
    Message,
    Update,
}

/// The transport that carries a message.
#[derive(Clone, Copy, Debug, PartialEq, Eq, Structural, Hash)]
pub enum Transport {
    Udp,
    Tcp,
}

/// The version of the protocol that a message names.
#[derive(Clone, Copy, Debug, PartialEq, Eq, Structural)]
pub struct Version {
    pub major: u8,
    pub minor: u8,
}

impl Version {
    /// The version of the messages that the server writes: 2.0.
    pub open spec fn current() -> Version {
        Version { major: 2, minor: 0 }
    }

    pub fn new(major: u8, minor: u8) -> (r: Self)
        ensures
            r == (Version { major, minor }),
    {
        Version { major, minor }
    }
}

impl Default for Version {
    fn default() -> (r: Self)
        ensures
            r == Version::current(),
    {
        Version { major: 2, minor: 0 }
    }
}

} // verus!
