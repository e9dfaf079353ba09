//! What the reader of the datagram socket does with what it reads.

use vstd::prelude::*;
use crate::client_worker::{ClientWorkerMessage, ClientWorkerMessageView};
use crate::message_router::{MessageRouterMessage, MessageRouterMessageView};
use crate::peer_address::PeerAddress;
use crate::sip::message::{SipMessage, SipMessageView};
use crate::sip_parse::worth_parsing;

verus! {

/// What the reader does with a message that it read.
#[derive(Debug)]
pub enum UdpReaderAction<S> {
    /// The peer is known: the message goes to the router.
    ToRouter(MessageRouterMessage<S>),
    /// The peer is new: a client and its worker are made for it, the worker
    /// is made known to the router, and the message goes to the new worker
    /// directly, since the router may not know the worker yet.
    NewClient { addr: PeerAddress, first: ClientWorkerMessage },
}

/// The mathematical value of a [`UdpReaderAction`].
pub enum UdpReaderActionView<S> {
    ToRouter(MessageRouterMessageView<S>),
    NewClient { addr: PeerAddress, first: ClientWorkerMessageView },
}

impl<S> View for UdpReaderAction<S> {
    type V = UdpReaderActionView<S>;

    open spec fn view(&self) -> UdpReaderActionView<S> {
        match self {
            UdpReaderAction::ToRouter(msg) => UdpReaderActionView::ToRouter(msg@),
            UdpReaderAction::NewClient { addr, first } => UdpReaderActionView::NewClient {
                addr: *addr,
                first: first@,
            },
        }
    }
}

/// What the reader does with a message from `addr`, given the addresses
/// that it has seen.
pub open spec fn udp_reader_action<S>(
    seen: Seq<PeerAddress>,
    addr: PeerAddress,
    msg: SipMessageView,
) -> UdpReaderActionView<S> {
    if seen.contains(addr) {
        UdpReaderActionView::ToRouter(MessageRouterMessageView::ReceivedMessage { addr, msg })
    } else {
        UdpReaderActionView::NewClient { addr, first: ClientWorkerMessageView::Received(msg) }
    }
}

/// The addresses that the reader has seen after a message from `addr`.
pub open spec fn udp_reader_seen(seen: Seq<PeerAddress>, addr: PeerAddress) -> Seq<PeerAddress> {
    if seen.contains(addr) {
        seen
    } else {
        seen.push(addr)
    }
}

/// Decides for each datagram and each message read from the socket what
/// becomes of it.
#[derive(Debug)]
pub struct UdpSocketReader {
    /// List of addresses of all connected clients, used to check if a
    /// message is received from a new connection.
    client_addrs: Vec<PeerAddress>,
}

impl View for UdpSocketReader {
    type V = Seq<PeerAddress>;

    /// The addresses from which a message was read, in the order in which
    /// they were first seen.
    closed spec fn view(&self) -> Seq<PeerAddress> {
        self.client_addrs@
    }
}

impl UdpSocketReader {
    /// A reader that has seen no peer.
    pub fn new() -> (r: Self)
        ensures
            r@ == Seq::<PeerAddress>::empty(),
    {
        Self { client_addrs: Vec::new() }
    }

    /// Whether a datagram of `len` bytes is parsed: one of four bytes or
    /// less is dropped without a word.
    pub fn read_msg(len: usize) -> (r: bool)
        ensures
            r == (len > 4),
    {
        worth_parsing(len)
    }

    /// Whether a message was read from `addr` before.
    pub fn knows(&self, addr: PeerAddress) -> (r: bool)
        ensures
            r == self@.contains(addr),
    {
        let mut i: usize = 0;
        while i < self.client_addrs.len()
            invariant
                i <= self.client_addrs.len(),
                forall|j: int| 0 <= j < i ==> self.client_addrs@[j] != addr,
            decreases self.client_addrs.len() - i,
        {
            if self.client_addrs[i] == addr {
                return true;
            }
            i += 1;
        }
        false
    }

    /// Decides what becomes of a message read from `addr`, and remembers
    /// the address.
    pub fn read_msgs<S>(&mut self, addr: PeerAddress, msg: SipMessage) -> (r: UdpReaderAction<S>)
        ensures
            r@ == udp_reader_action::<S>(old(self)@, addr, msg@),
            final(self)@ == udp_reader_seen(old(self)@, addr),
    {
        if self.knows(addr) {
            UdpReaderAction::ToRouter(MessageRouterMessage::ReceivedMessage { addr, msg })
        } else {
            self.client_addrs.push(addr);
            UdpReaderAction::NewClient { addr, first: ClientWorkerMessage::Received(msg) }
        }
    }
}

} // verus!
