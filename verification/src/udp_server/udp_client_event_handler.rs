//! Where the events of a client go whose peer is reached by datagrams.

use vstd::prelude::*;
use crate::client::{ClientEvent, ClientEventView};
use crate::message_router::{MessageRouterMessage, MessageRouterMessageView};
use crate::peer_address::PeerAddress;
use crate::udp_server::udp_socket_writer::{UdpSocketWriterMessage, UdpSocketWriterMessageView};

verus! {

/// Where an event of a client goes.
#[derive(Debug)]
pub enum UdpClientAction<S> {
    /// To the router, which passes the message on to another client.
    ToRouter(MessageRouterMessage<S>),
    /// To the writer of the socket, which sends the message to the peer.
    ToWriter(UdpSocketWriterMessage),
}

/// The mathematical value of a [`UdpClientAction`].
pub enum UdpClientActionView<S> {
    ToRouter(MessageRouterMessageView<S>),
    ToWriter(UdpSocketWriterMessageView),
}

impl<S> View for UdpClientAction<S> {
    type V = UdpClientActionView<S>;

    open spec fn view(&self) -> UdpClientActionView<S> {
        match self {
            UdpClientAction::ToRouter(msg) => UdpClientActionView::ToRouter(msg@),
            UdpClientAction::ToWriter(msg) => UdpClientActionView::ToWriter(msg@),
        }
    }
}

/// Where an event of the client of the peer at `addr` goes: a message to
/// send goes to the writer, for that peer; a message to route goes to the
/// router, for the address that the event names.
pub open spec fn udp_client_action<S>(addr: PeerAddress, event: ClientEventView)
    -> UdpClientActionView<S> {
    match event {
        ClientEventView::Route { addr: to, msg } => UdpClientActionView::ToRouter(
            MessageRouterMessageView::RoutedMessage { addr: to, msg },
        ),
        ClientEventView::Send(msg) => UdpClientActionView::ToWriter(
            UdpSocketWriterMessageView { addr, msg },
        ),
    }
}

/// Handles the events of a client whose transport protocol is UDP.
#[derive(Debug)]
pub struct UdpClientEventHandler {
    addr: PeerAddress,
}

impl View for UdpClientEventHandler {
    type V = PeerAddress;

    /// The address of the client's peer.
    closed spec fn view(&self) -> PeerAddress {
        self.addr
    }
}

impl UdpClientEventHandler {
    /// The handler for the client of the peer at `addr`.
    pub fn new(addr: PeerAddress) -> (r: Self)
        ensures
            r@ == addr,
    {
        Self { addr }
    }

    /// Says where an event of the client goes.
    pub fn handle<S>(&self, event: ClientEvent) -> (r: UdpClientAction<S>)
        ensures
            r@ == udp_client_action::<S>(self@, event@),
    {
        match event {
            ClientEvent::Route { addr, msg } => UdpClientAction::ToRouter(
                MessageRouterMessage::RoutedMessage { addr, msg },
            ),
            ClientEvent::Send(msg) => UdpClientAction::ToWriter(
                UdpSocketWriterMessage { addr: self.addr, msg },
            ),
        }
    }
}

} // verus!
