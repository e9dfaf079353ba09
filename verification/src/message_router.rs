//! The router: it passes messages on to the worker of the client that they
//! are for.
//!
//! The router knows each worker by the address of its peer and holds the
//! handle through which messages reach it. What a handle is, and how a
//! message is sent through it, is the business of the server around the
//! router: here a handle is any value `S`.

use vstd::prelude::*;
use crate::client_worker::{ClientWorkerMessage, ClientWorkerMessageView};
use crate::peer_address::PeerAddress;
use crate::search::{first_index, lemma_first_index, lemma_first_index_is};
use crate::sip::message::{SipMessage, SipMessageView};

verus! {

/// Message handled by the router.
#[derive(Debug)]
pub enum MessageRouterMessage<S> {
    /// New client worker created.
    ClientWorker { addr: PeerAddress, sender: S },
    /// Message received from network to be handled by client worker.
    ReceivedMessage { addr: PeerAddress, msg: SipMessage },
    /// Message routed to be handled by another client worker.
    RoutedMessage { addr: PeerAddress, msg: SipMessage },
}

/// The mathematical value of a [`MessageRouterMessage`].
pub enum MessageRouterMessageView<S> {
    ClientWorker { addr: PeerAddress, sender: S },
    ReceivedMessage { addr: PeerAddress, msg: SipMessageView },
    RoutedMessage { addr: PeerAddress, msg: SipMessageView },
}

impl<S> View for MessageRouterMessage<S> {
    type V = MessageRouterMessageView<S>;

    open spec fn view(&self) -> MessageRouterMessageView<S> {
        match self {
            MessageRouterMessage::ClientWorker { addr, sender } => {
                MessageRouterMessageView::ClientWorker { addr: *addr, sender: *sender }
            },
            MessageRouterMessage::ReceivedMessage { addr, msg } => {
                MessageRouterMessageView::ReceivedMessage { addr: *addr, msg: msg@ }
            },
            MessageRouterMessage::RoutedMessage { addr, msg } => {
                MessageRouterMessageView::RoutedMessage { addr: *addr, msg: msg@ }
            },
        }
    }
}

/// What the router does with a message.
#[derive(Debug)]
pub enum RouterAction {
    /// The worker was taken into the table.
    WorkerAdded,
    /// The address has a worker already: the new one was not taken.
    WorkerExists { addr: PeerAddress },
    /// The message goes to the worker at this place of the table.
    Deliver { worker: usize, msg: ClientWorkerMessage },
    /// No worker is known under the address: the message is dropped.
    NoWorker { addr: PeerAddress },
}

/// The mathematical value of a [`RouterAction`].
pub enum RouterActionView {
    WorkerAdded,
    WorkerExists { addr: PeerAddress },
    Deliver { worker: int, msg: ClientWorkerMessageView },
    NoWorker { addr: PeerAddress },
}

impl View for RouterAction {
    type V = RouterActionView;

    open spec fn view(&self) -> RouterActionView {
        match self {
            RouterAction::WorkerAdded => RouterActionView::WorkerAdded,
            RouterAction::WorkerExists { addr } => RouterActionView::WorkerExists { addr: *addr },
            RouterAction::Deliver { worker, msg } => RouterActionView::Deliver {
                worker: *worker as int,
                msg: msg@,
            },
            RouterAction::NoWorker { addr } => RouterActionView::NoWorker { addr: *addr },
        }
    }
}

/// The workers of the peer at `addr`.
pub open spec fn is_worker_of<S>(addr: PeerAddress) -> spec_fn((PeerAddress, S)) -> bool {
    |worker: (PeerAddress, S)| worker.0 == addr
}

/// The place of the worker of `addr` in a table of workers.
pub open spec fn worker_of<S>(workers: Seq<(PeerAddress, S)>, addr: PeerAddress) -> Option<int> {
    first_index(workers, is_worker_of(addr))
}

/// No address has two workers.
pub open spec fn distinct_workers<S>(workers: Seq<(PeerAddress, S)>) -> bool {
    forall|i: int, j: int|
        0 <= i < j < workers.len() ==> (#[trigger] workers[i]).0 != (#[trigger] workers[j]).0
}

/// What the router does with a message, given its table of workers.
pub open spec fn router_action<S>(
    workers: Seq<(PeerAddress, S)>,
    msg: MessageRouterMessageView<S>,
) -> RouterActionView {
    match msg {
        MessageRouterMessageView::ClientWorker { addr, sender } => match worker_of(workers, addr) {
            Some(_) => RouterActionView::WorkerExists { addr },
            None => RouterActionView::WorkerAdded,
        },
        MessageRouterMessageView::ReceivedMessage { addr, msg } => match worker_of(workers, addr) {
            Some(worker) => RouterActionView::Deliver {
                worker,
                msg: ClientWorkerMessageView::Received(msg),
            },
            None => RouterActionView::NoWorker { addr },
        },
        MessageRouterMessageView::RoutedMessage { addr, msg } => match worker_of(workers, addr) {
            Some(worker) => RouterActionView::Deliver {
                worker,
                msg: ClientWorkerMessageView::Routed(msg),
            },
            None => RouterActionView::NoWorker { addr },
        },
    }
}

/// The table of workers after the router handled a message: a new worker
/// is added at the end where its address had none.
pub open spec fn router_workers<S>(
    workers: Seq<(PeerAddress, S)>,
    msg: MessageRouterMessageView<S>,
) -> Seq<(PeerAddress, S)> {
    match msg {
        MessageRouterMessageView::ClientWorker { addr, sender } => match worker_of(workers, addr) {
            Some(_) => workers,
            None => workers.push((addr, sender)),
        },
        _ => workers,
    }
}

/// Passes messages on to the workers of the clients that they are for.
pub struct MessageRouter<S> {
    senders: Vec<(PeerAddress, S)>,
}

impl<S> View for MessageRouter<S> {
    type V = Seq<(PeerAddress, S)>;

    /// The workers that the router knows, in the order in which they came:
    /// the address of the peer, and the handle of the worker.
    closed spec fn view(&self) -> Seq<(PeerAddress, S)> {
        self.senders@
    }
}

impl<S> MessageRouter<S> {
    #[verifier::type_invariant]
    spec fn distinct(self) -> bool {
        distinct_workers(self.senders@)
    }

    /// A router that knows no worker.
    pub fn new() -> (r: Self)
        ensures
            r@ == Seq::<(PeerAddress, S)>::empty(),
    {
        Self { senders: Vec::new() }
    }

    /// The place of the worker of `addr`.
    pub fn worker(&self, addr: PeerAddress) -> (r: Option<usize>)
        ensures
            r matches Some(i) ==> worker_of(self@, addr) == Some(i as int) && i < self@.len(),
            r is None ==> worker_of(self@, addr) is None,
    {
        let ghost wanted = is_worker_of::<S>(addr);
        let mut i: usize = 0;
        while i < self.senders.len()
            invariant
                i <= self.senders.len(),
                wanted == is_worker_of::<S>(addr),
                forall|j: int| 0 <= j < i ==> !wanted(#[trigger] self.senders@[j]),
            decreases self.senders.len() - i,
        {
            if self.senders[i].0 == addr {
                proof {
                    assert(wanted(self.senders@[i as int]));
                    lemma_first_index_is(self.senders@, wanted, i as int);
                }
                return Some(i);
            }
            i += 1;
        }
        proof {
            lemma_first_index(self.senders@, wanted);
        }
        None
    }

    /// The handle of the worker at a place of the table.
    pub fn sender(&self, worker: usize) -> (r: Option<&S>)
        ensures
            match r {
                Some(sender) => worker < self@.len() && *sender == self@[worker as int].1,
                None => worker >= self@.len(),
            },
    {
        if worker < self.senders.len() {
            Some(&self.senders[worker].1)
        } else {
            None
        }
    }

    /// Takes a new worker into the table. Returns `false`, and leaves the
    /// table as it is, where the address has a worker already.
    pub fn add_client_worker(&mut self, addr: PeerAddress, sender: S) -> (r: bool)
        ensures
            r == (worker_of(old(self)@, addr) is None),
            final(self)@ == router_workers(
                old(self)@,
                MessageRouterMessageView::ClientWorker { addr, sender },
            ),
    {
        match self.worker(addr) {
            Some(_) => false,
            None => {
                proof {
                    use_type_invariant(&*self);
                }
                let mut senders: Vec<(PeerAddress, S)> = Vec::new();
                core::mem::swap(&mut self.senders, &mut senders);
                senders.push((addr, sender));
                proof {
                    let before = old(self)@;
                    lemma_first_index(before, is_worker_of::<S>(addr));
                    assert forall|i: int, j: int| 0 <= i < j < senders@.len() implies (
                    #[trigger] senders@[i]).0 != (#[trigger] senders@[j]).0 by {
                        if j == before.len() {
                            assert(!is_worker_of::<S>(addr)(before[i]));
                        }
                    }
                }
                core::mem::swap(&mut self.senders, &mut senders);
                true
            },
        }
    }

    /// Finds the worker that a message is for.
    fn deliver(&self, addr: PeerAddress, msg: ClientWorkerMessage) -> (r: RouterAction)
        ensures
            r@ == match worker_of(self@, addr) {
                Some(worker) => RouterActionView::Deliver { worker, msg: msg@ },
                None => RouterActionView::NoWorker { addr },
            },
    {
        match self.worker(addr) {
            Some(worker) => RouterAction::Deliver { worker, msg },
            None => RouterAction::NoWorker { addr },
        }
    }

    /// Handles one message: takes in a new worker, or finds the worker that
    /// a received or routed message is for.
    pub fn handle(&mut self, msg: MessageRouterMessage<S>) -> (r: RouterAction)
        ensures
            r@ == router_action(old(self)@, msg@),
            final(self)@ == router_workers(old(self)@, msg@),
            distinct_workers(final(self)@),
    {
        let r = match msg {
            MessageRouterMessage::ClientWorker { addr, sender } => {
                if self.add_client_worker(addr, sender) {
                    RouterAction::WorkerAdded
                } else {
                    RouterAction::WorkerExists { addr }
                }
            },
            MessageRouterMessage::ReceivedMessage { addr, msg: received } => {
                self.deliver(addr, ClientWorkerMessage::Received(received))
            },
            MessageRouterMessage::RoutedMessage { addr, msg: routed } => {
                self.deliver(addr, ClientWorkerMessage::Routed(routed))
            },
        };
        proof {
            use_type_invariant(&*self);
        }
        r
    }
}

} // verus!
