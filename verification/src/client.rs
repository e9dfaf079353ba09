//! What a client asks the server to do with a message.

use vstd::prelude::*;
use crate::peer_address::PeerAddress;
use crate::sip::message::{SipMessage, SipMessageView};

verus! {

/// What a client asks of the server that runs it.
#[derive(Debug)]
pub enum ClientEvent {
    /// Sends the message to the client's own peer.
    Send(SipMessage),
    /// Routes the message to be handled by the client whose peer's address
    /// matches.
    Route { addr: PeerAddress, msg: SipMessage },
}

/// The mathematical value of a [`ClientEvent`].
pub enum ClientEventView {
    Send(SipMessageView),
    Route { addr: PeerAddress, msg: SipMessageView },
}

impl View for ClientEvent {
    type V = ClientEventView;

    open spec fn view(&self) -> ClientEventView {
        match self {
            ClientEvent::Send(msg) => ClientEventView::Send(msg@),
            ClientEvent::Route { addr, msg } => ClientEventView::Route { addr: *addr, msg: msg@ },
        }
    }
}

impl ClientEventView {
    /// The message that the event carries.
    pub open spec fn msg(self) -> SipMessageView {
        match self {
            ClientEventView::Send(msg) => msg,
            ClientEventView::Route { msg, .. } => msg,
        }
    }
}

/// Each event carries a well-formed message.
pub open spec fn events_well_formed(events: Seq<ClientEventView>) -> bool {
    forall|i: int| 0 <= i < events.len() ==> (#[trigger] events[i]).msg().well_formed()
}

impl DeepView for ClientEvent {
    type V = ClientEventView;

    open spec fn deep_view(&self) -> ClientEventView {
        self@
    }
}

/// No event.
pub(crate) fn no_event() -> (r: Vec<ClientEvent>)
    ensures
        r.deep_view() == Seq::<ClientEventView>::empty(),
{
    let r: Vec<ClientEvent> = Vec::new();
    assert(r.deep_view() =~= Seq::<ClientEventView>::empty());
    r
}

/// One event.
pub(crate) fn one_event(event: ClientEvent) -> (r: Vec<ClientEvent>)
    ensures
        r.deep_view() == seq![event@],
{
    let mut r: Vec<ClientEvent> = Vec::new();
    r.push(event);
    assert(r.deep_view() =~= seq![event@]);
    r
}

} // verus!
