//! What the writer of the datagram socket is asked to send.

use vstd::prelude::*;
use crate::peer_address::PeerAddress;
use crate::sip::message::{SipMessage, SipMessageView};

verus! {

/// A message for the peer at an address.
#[derive(Debug)]
pub struct UdpSocketWriterMessage {
    pub addr: PeerAddress,
    pub msg: SipMessage,
}

/// The mathematical value of a [`UdpSocketWriterMessage`].
pub struct UdpSocketWriterMessageView {
    pub addr: PeerAddress,
    pub msg: SipMessageView,
}

impl View for UdpSocketWriterMessage {
    type V = UdpSocketWriterMessageView;

    open spec fn view(&self) -> UdpSocketWriterMessageView {
        UdpSocketWriterMessageView { addr: self.addr, msg: self.msg@ }
    }
}

} // verus!
