//! The worker of one client: it hands the client one message at a time.

use vstd::prelude::*;
use crate::client::{ClientEvent, ClientEventView};
use crate::my_client::{shared, FreshIdsView, MyClient, MyClientView, Outcome, SharedView};
use crate::my_system::{MySystem, MySystemView};
use crate::sip::message::{SipMessage, SipMessageView};
use crate::utils::Utils;

verus! {

/// A message for the worker of a client.
#[derive(Debug)]
pub enum ClientWorkerMessage {
    /// A message that the client's own peer sent.
    Received(SipMessage),
    /// A message that another client routed to this one.
    Routed(SipMessage),
}

/// The mathematical value of a [`ClientWorkerMessage`].
pub enum ClientWorkerMessageView {
    Received(SipMessageView),
    Routed(SipMessageView),
}

impl View for ClientWorkerMessage {
    type V = ClientWorkerMessageView;

    open spec fn view(&self) -> ClientWorkerMessageView {
        match self {
            ClientWorkerMessage::Received(msg) => ClientWorkerMessageView::Received(msg@),
            ClientWorkerMessage::Routed(msg) => ClientWorkerMessageView::Routed(msg@),
        }
    }
}

impl MyClientView {
    /// Handling the worker's message `msg` with some identifiers `fresh`
    /// gave these events and left this behind.
    pub open spec fn worker_handles(
        self,
        msg: ClientWorkerMessageView,
        before: SharedView,
        fresh: Option<FreshIdsView>,
        events: Seq<ClientEventView>,
        after: SharedView,
    ) -> bool {
        &&& events == self.on_worker_message(msg, before, fresh).events
        &&& after == self.on_worker_message(msg, before, fresh).shared
    }

    /// Whether the worker's message can be handled with what is left of the
    /// ids of the table of dialogs and of the branches. A routed message
    /// takes none.
    pub open spec fn worker_can_handle(
        self,
        msg: ClientWorkerMessageView,
        system: MySystemView,
        branches: nat,
    ) -> bool {
        match msg {
            ClientWorkerMessageView::Received(received) => self.can_handle(
                received,
                system,
                branches,
            ),
            ClientWorkerMessageView::Routed(_) => true,
        }
    }

    /// What handling a message of the worker comes to.
    pub open spec fn on_worker_message(
        self,
        msg: ClientWorkerMessageView,
        shared: SharedView,
        fresh: Option<FreshIdsView>,
    ) -> Outcome {
        match msg {
            ClientWorkerMessageView::Received(msg) => self.on_msg(msg, shared, fresh),
            ClientWorkerMessageView::Routed(msg) => {
                let routed = self.on_routed_msg(msg, shared.dialogs);
                Outcome {
                    events: routed.events,
                    shared: SharedView { dialogs: routed.dialogs, ..shared },
                }
            },
        }
    }
}

/// The worker of one client.
#[derive(Debug)]
pub struct ClientWorker {
    client: MyClient,
}

impl View for ClientWorker {
    type V = MyClientView;

    /// The client that the worker runs.
    closed spec fn view(&self) -> MyClientView {
        self.client@
    }
}

impl ClientWorker {
    /// The worker of `client`.
    pub fn new(client: MyClient) -> (r: Self)
        ensures
            r@ == client@,
    {
        Self { client }
    }

    /// Hands one message to the client: a received one as a message of its
    /// own peer, a routed one as a message of another client. Returns what
    /// the client asks of the server.
    pub fn handle(&self, msg: ClientWorkerMessage, system: &mut MySystem, utils: &mut Utils) -> (r:
        Vec<ClientEvent>)
        requires
            self@.worker_can_handle(msg@, old(system)@, old(utils)@),
        ensures
            exists|fresh: Option<FreshIdsView>|
                self@.worker_handles(
                    msg@,
                    shared(old(system)@, old(utils)@),
                    fresh,
                    r.deep_view(),
                    shared(final(system)@, final(utils)@),
                ),
            old(system)@.dialogs.wf() ==> final(system)@.dialogs.wf(),
    {
        let ghost before = shared(old(system)@, old(utils)@);
        let ghost given = msg@;
        match msg {
            ClientWorkerMessage::Received(received) => {
                let ghost received_view = received@;
                let r = self.client.on_msg(received, system, utils);
                proof {
                    let fresh = choose|fresh: Option<FreshIdsView>|
                        self.client@.handles(
                            received_view,
                            before,
                            fresh,
                            r.deep_view(),
                            shared(system@, utils@),
                        );
                    assert(self@.worker_handles(
                        given,
                        before,
                        fresh,
                        r.deep_view(),
                        shared(system@, utils@),
                    ));
                }
                r
            },
            ClientWorkerMessage::Routed(routed) => {
                let r = self.client.on_routed_msg(routed, system);
                proof {
                    let fresh = None::<FreshIdsView>;
                    assert(self@.worker_handles(
                        given,
                        before,
                        fresh,
                        r.deep_view(),
                        shared(system@, utils@),
                    ));
                }
                r
            },
        }
    }
}

impl ClientWorker {
    /// Hands one message to the client where it can be handled with what
    /// is left of the ids of the table of dialogs and of the branches.
    /// Returns `None`, and changes nothing, where it cannot.
    pub fn try_handle(
        &self,
        msg: ClientWorkerMessage,
        system: &mut MySystem,
        utils: &mut Utils,
    ) -> (r: Option<Vec<ClientEvent>>)
        ensures
            r is Some <==> self@.worker_can_handle(msg@, old(system)@, old(utils)@),
            r is Some ==> exists|fresh: Option<FreshIdsView>|
                self@.worker_handles(
                    msg@,
                    shared(old(system)@, old(utils)@),
                    fresh,
                    r.unwrap().deep_view(),
                    shared(final(system)@, final(utils)@),
                ),
            r is None ==> final(system)@ == old(system)@ && final(utils)@ == old(utils)@,
            old(system)@.dialogs.wf() ==> final(system)@.dialogs.wf(),
    {
        if self.can_handle(&msg, system, utils) {
            let ghost given = msg@;
            let out = self.handle(msg, system, utils);
            proof {
                let before = shared(old(system)@, old(utils)@);
                let after = shared(system@, utils@);
                let fresh = choose|fresh: Option<FreshIdsView>|
                    self@.worker_handles(given, before, fresh, out.deep_view(), after);
                assert(self@.worker_handles(given, before, fresh, out.deep_view(), after));
                assert(Some(out).unwrap().deep_view() == out.deep_view());
            }
            Some(out)
        } else {
            None
        }
    }

    /// Whether the message can be handled with what is left of the ids of
    /// the table of dialogs and of the branches.
    pub fn can_handle(&self, msg: &ClientWorkerMessage, system: &MySystem, utils: &Utils) -> (r:
        bool)
        ensures
            r == self@.worker_can_handle(msg@, system@, utils@),
    {
        match msg {
            ClientWorkerMessage::Received(received) => self.client.can_handle(
                received,
                system,
                utils,
            ),
            ClientWorkerMessage::Routed(_) => true,
        }
    }
}

} // verus!
