//! Where the events of a client go whose peer is reached by a connection.

use vstd::prelude::*;
use crate::client::{ClientEvent, ClientEventView};
use crate::message_router::{MessageRouterMessage, MessageRouterMessageView};
use crate::sip::message::{SipMessage, SipMessageView};

verus! {

/// Where an event of a client goes.
#[derive(Debug)]
pub enum TcpClientAction<S> {
    /// To the router, which passes the message on to another client.
    ToRouter(MessageRouterMessage<S>),
    /// Onto the connection of the client's own peer.
    Write(SipMessage),
}

/// The mathematical value of a [`TcpClientAction`].
pub enum TcpClientActionView<S> {
    ToRouter(MessageRouterMessageView<S>),
    Write(SipMessageView),
}

impl<S> View for TcpClientAction<S> {
    type V = TcpClientActionView<S>;

    open spec fn view(&self) -> TcpClientActionView<S> {
        match self {
            TcpClientAction::ToRouter(msg) => TcpClientActionView::ToRouter(msg@),
            TcpClientAction::Write(msg) => TcpClientActionView::Write(msg@),
        }
    }
}

/// Where an event of a client goes: a message to send is written onto the
/// connection; a message to route goes to the router, for the address that
/// the event names.
pub open spec fn tcp_client_action<S>(event: ClientEventView) -> TcpClientActionView<S> {
    match event {
        ClientEventView::Route { addr, msg } => TcpClientActionView::ToRouter(
            MessageRouterMessageView::RoutedMessage { addr, msg },
        ),
        ClientEventView::Send(msg) => TcpClientActionView::Write(msg),
    }
}

/// Handles the events of a client whose transport protocol is TCP.
#[derive(Debug)]
pub struct TcpClientEventHandler;

impl TcpClientEventHandler {
    pub fn new() -> (r: Self)
        ensures
            r == TcpClientEventHandler,
    {
        Self
    }

    /// Says where an event of the client goes.
    pub fn handle<S>(&self, event: ClientEvent) -> (r: TcpClientAction<S>)
        ensures
            r@ == tcp_client_action::<S>(event@),
    {
        match event {
            ClientEvent::Route { addr, msg } => TcpClientAction::ToRouter(
                MessageRouterMessage::RoutedMessage { addr, msg },
            ),
            ClientEvent::Send(message) => TcpClientAction::Write(message),
        }
    }
}

} // verus!
