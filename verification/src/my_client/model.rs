//! What the client of a peer does, stated over the mathematical values of
//! messages and tables.

use vstd::prelude::*;
use crate::client::ClientEventView;
use crate::components::dialog_gen::{is_call_id, is_tag};
use crate::components::dialogs::{DialogInfoView, DialogsView, IncompleteDialogInfoView};
use crate::components::registrations::RegistrationOp;
use crate::my_system::MySystemView;
use crate::peer_address::PeerAddress;
use crate::sip::headers::{
    HeaderView, NamedHeaderView, SubscriptionStateView, ViaHeaderView,
};
use crate::sip::message::SipMessageView;
use crate::sip::tokens::{Method, Transport, Version};
use crate::sip::uri::{DomainView, UriAuthView, UriParamView, UriSchema, UriView};
use crate::via_branch_generator::branch_text;

verus! {

/// The tag that the server puts on its own side of what it answers itself.
pub open spec fn local_tag() -> Seq<char> {
    "123456"@
}

/// What a response echoes of one header of the request: nothing of a
/// `Contact` or `Content-Length` header, a `To` header with the server's
/// tag, any other header as it is.
pub open spec fn echo(header: HeaderView) -> Option<HeaderView> {
    match header {
        HeaderView::Contact(_) => None,
        HeaderView::ContentLength(_) => None,
        HeaderView::To(to) => Some(HeaderView::To(to.with_tag(local_tag()))),
        _ => Some(header),
    }
}

/// What a response echoes of the headers of the request, in their order.
pub open spec fn echoed_headers(headers: Seq<HeaderView>) -> Seq<HeaderView> {
    headers.filter_map(|header: HeaderView| echo(header))
}

/// The mathematical value of [`FreshIds`].
pub struct FreshIdsView {
    pub incoming_server_tag: Seq<char>,
    pub new_server_tag: Seq<char>,
    pub new_call_id: Seq<char>,
}

impl FreshIdsView {
    /// The identifiers are made of numbers as the generator makes them.
    pub open spec fn generated(self) -> bool {
        &&& is_tag(self.incoming_server_tag)
        &&& is_tag(self.new_server_tag)
        &&& is_call_id(self.new_call_id)
    }
}

/// What the clients of a server share: the two tables and the number of
/// `Via` branches handed out.
pub struct SharedView {
    pub registrations: Map<Seq<char>, PeerAddress>,
    pub dialogs: DialogsView,
    pub branches: nat,
}

/// What the system and the helpers hold together.
pub open spec fn shared(system: MySystemView, branches: nat) -> SharedView {
    SharedView { registrations: system.registrations, dialogs: system.dialogs, branches }
}

/// What handling a message comes to: the events for the server, in their
/// order, and what the clients share afterwards.
pub struct Outcome {
    pub events: Seq<ClientEventView>,
    pub shared: SharedView,
}

/// What handling a message comes to where only the table of dialogs can
/// change: the events for the server, in their order, and the table
/// afterwards.
pub struct Routed {
    pub events: Seq<ClientEventView>,
    pub dialogs: DialogsView,
}

/// The request after it was given the identifiers of the other leg, and the
/// table of dialogs afterwards; `None` where the request lacks what
/// identifies its dialog.
///
/// A request inside a dialog (its `To` header has a tag) gets the
/// identifiers of the linked dialog; where no dialog is linked, it stays as
/// it is. A request that opens a dialog gets a new call identifier and a
/// new tag in `From`, and both legs are written into the table; where no
/// new identifiers are at hand, it cannot be passed on.
pub open spec fn translated_request(
    msg: SipMessageView,
    dialogs: DialogsView,
    fresh: Option<FreshIdsView>,
) -> Option<(SipMessageView, DialogsView)> {
    match (msg.from_header_tag(), msg.call_id()) {
        (Some(client_tag), Some(call_id)) => match msg.to_header_tag() {
            Some(server_tag) => match dialogs.linked(call_id, server_tag, client_tag) {
                Some(other) => Some(
                    (
                        msg.with_call_id(other.call_id).with_from_header_tag(
                            other.server_tag,
                        ).with_to_header_tag(other.client_tag),
                        dialogs,
                    ),
                ),
                None => Some((msg, dialogs)),
            },
            None => match fresh {
                Some(fresh) => Some(
                    (
                        msg.with_from_header_tag(fresh.new_server_tag).with_call_id(
                            fresh.new_call_id,
                        ),
                        dialogs.added(
                            DialogInfoView {
                                call_id,
                                server_tag: fresh.incoming_server_tag,
                                client_tag,
                            },
                            IncompleteDialogInfoView {
                                call_id: fresh.new_call_id,
                                server_tag: fresh.new_server_tag,
                            },
                        ),
                    ),
                ),
                None => None,
            },
        },
        _ => None,
    }
}

/// The table of dialogs after a response passed through translation: where
/// the response names its dialog, the leg that waited for it is
/// established.
pub open spec fn dialogs_after_response(msg: SipMessageView, dialogs: DialogsView) -> DialogsView {
    match (msg.from_header_tag(), msg.to_header_tag(), msg.call_id()) {
        (Some(server_tag), Some(client_tag), Some(call_id)) => dialogs.answered(
            call_id,
            server_tag,
            client_tag,
        ),
        _ => dialogs,
    }
}

/// The response after it was given the identifiers of the other leg;
/// `None` where it lacks what identifies its dialog, or no dialog is linked
/// to its own.
pub open spec fn translated_response(msg: SipMessageView, dialogs: DialogsView) -> Option<
    SipMessageView,
> {
    match (msg.from_header_tag(), msg.to_header_tag(), msg.call_id()) {
        (Some(server_tag), Some(client_tag), Some(call_id)) => match dialogs.answered(
            call_id,
            server_tag,
            client_tag,
        ).linked(call_id, server_tag, client_tag) {
            Some(other) => Some(
                msg.with_call_id(other.call_id).with_from_header_tag(
                    other.client_tag,
                ).with_to_header_tag(other.server_tag),
            ),
            None => None,
        },
        _ => None,
    }
}

/// Whether translating the request opens a dialog: the request names its
/// call and its sender's tag, and has no tag in `To` yet. Two ids of the
/// table of dialogs are taken then.
pub open spec fn opens_dialog(msg: SipMessageView) -> bool {
    msg.from_header_tag() is Some && msg.call_id() is Some && msg.to_header_tag() is None
}

/// Whether the server routes requests of this method to the callee.
pub open spec fn routes_request(method: Method) -> bool {
    method == Method::Invite || method == Method::Bye || method == Method::Ack || method
        == Method::Cancel || method == Method::Refer || method == Method::Notify
}

/// Whether the server routes responses to requests of this method to the
/// caller.
pub open spec fn routes_response(method: Method) -> bool {
    method == Method::Invite || method == Method::Bye || method == Method::Cancel || method
        == Method::Refer || method == Method::Notify
}

/// The mathematical value of a [`MyClient`].
pub struct MyClientView {
    pub address: PeerAddress,
    pub transport: Transport,
    pub schema: UriSchema,
    pub domain: DomainView,
    pub back_to_back: bool,
}

impl MyClientView {
    /// The `Contact` value of the server.
    pub open spec fn contact(self) -> NamedHeaderView {
        NamedHeaderView::of(UriView::of(self.schema, self.domain))
    }

    /// The `Via` value of the server on the transport of this client, with
    /// a branch.
    pub open spec fn via(self, branch: Seq<char>) -> ViaHeaderView {
        ViaHeaderView::of(
            UriView::schemaless(self.domain).with_parameter(UriParamView::Branch(branch)),
            self.transport,
        )
    }

    /// The headers of the response to a request with these headers: what
    /// is echoed, then the `Contact` of the server and an empty body's
    /// length.
    pub open spec fn response_headers(self, headers: Seq<HeaderView>) -> Seq<HeaderView> {
        echoed_headers(headers).push(HeaderView::Contact(self.contact())).push(
            HeaderView::ContentLength(0),
        )
    }

    /// The response of the server to a request.
    pub open spec fn response(self, req: SipMessageView, code: u32) -> SipMessageView {
        SipMessageView::Response {
            code,
            version: Version::current(),
            headers: self.response_headers(req.headers()),
            body: Seq::empty(),
        }
    }

    /// The response of the server to a request, with one more header at its
    /// end.
    pub open spec fn response_with(
        self,
        req: SipMessageView,
        code: u32,
        extra: HeaderView,
    ) -> SipMessageView {
        SipMessageView::Response {
            code,
            version: Version::current(),
            headers: self.response_headers(req.headers()).push(extra),
            body: Seq::empty(),
        }
    }

    /// The answer to a `REGISTER`: the request is accepted, and the time
    /// that it asks for is echoed, where it names a user in `To` and a time;
    /// else it is refused.
    pub open spec fn register_events(self, msg: SipMessageView) -> Seq<ClientEventView> {
        match (msg.to_header_username(), msg.expires()) {
            (Some(_), Some(expires)) => seq![
                ClientEventView::Send(self.response_with(msg, 200, HeaderView::Expires(expires))),
            ],
            _ => seq![ClientEventView::Send(self.response(msg, 400))],
        }
    }

    /// What a `REGISTER` does to the table of registrations: it registers
    /// the user of `To` at the peer of this client where a time above zero
    /// is asked, and unregisters the user where the time is zero. A request
    /// that is refused does nothing.
    pub open spec fn register_op(self, msg: SipMessageView) -> Option<RegistrationOp> {
        match (msg.to_header_username(), msg.expires()) {
            (Some(user), Some(expires)) => Some(
                if expires > 0 {
                    RegistrationOp::Register { user, address: self.address }
                } else {
                    RegistrationOp::Unregister { user }
                },
            ),
            _ => None,
        }
    }

    /// The registrations after a `REGISTER`.
    pub open spec fn registered(
        self,
        msg: SipMessageView,
        registrations: Map<Seq<char>, PeerAddress>,
    ) -> Map<Seq<char>, PeerAddress> {
        match self.register_op(msg) {
            Some(op) => op.apply(registrations),
            None => registrations,
        }
    }

    /// The `From` header of a notification: the `To` header of the
    /// subscription, with the server's tag where it had none.
    pub open spec fn notifier(to: NamedHeaderView) -> NamedHeaderView {
        if to.tag() is Some {
            to
        } else {
            to.with_tag(local_tag())
        }
    }

    /// The notification that follows a subscription; `None` where the
    /// subscription lacks what the notification is made of.
    pub open spec fn notify(self, msg: SipMessageView, branch: Seq<char>) -> Option<
        SipMessageView,
    > {
        match (msg.request_uri(), msg.from_header(), msg.to_header(), msg.call_id(), msg.event()) {
            (Some(uri), Some(from), Some(to), Some(call_id), Some(event)) => match uri.username() {
                Some(username) => Some(
                    SipMessageView::Request {
                        method: Method::Notify,
                        uri: UriView::of(self.schema, self.domain).with_auth(
                            UriAuthView { username, password: None },
                        ),
                        version: Version::current(),
                        headers: seq![
                            HeaderView::Via(self.via(branch)),
                            HeaderView::From(Self::notifier(to)),
                            HeaderView::To(from),
                            HeaderView::Event(event),
                            HeaderView::MaxForwards(70),
                            HeaderView::CallId(call_id),
                            HeaderView::CSeq(50, Method::Notify),
                            HeaderView::Contact(self.contact()),
                            HeaderView::SubscriptionState(SubscriptionStateView::active_for(86400)),
                            HeaderView::ContentLength(0),
                        ],
                        body: Seq::empty(),
                    },
                ),
                None => None,
            },
            _ => None,
        }
    }

    /// The answer to a `SUBSCRIBE`: the request is accepted, and the
    /// subscriber is notified at once where the request holds what a
    /// notification is made of. `branches` is the number of branches handed
    /// out before.
    pub open spec fn subscribe_events(self, msg: SipMessageView, branches: nat) -> Seq<
        ClientEventView,
    > {
        let accepted = ClientEventView::Send(self.response(msg, 200));
        match self.notify(msg, branch_text(branches)) {
            Some(notify) => seq![accepted, ClientEventView::Send(notify)],
            None => seq![accepted],
        }
    }

    /// The number of branches handed out after a `SUBSCRIBE`: a
    /// notification takes one.
    pub open spec fn branches_after_subscribe(self, msg: SipMessageView, branches: nat) -> nat {
        if self.notify(msg, branch_text(branches)) is Some {
            branches + 1
        } else {
            branches
        }
    }

    /// What handling a request for another user comes to. The request is
    /// refused where its `Via` has no branch or its `To` names no user, and
    /// the user is said not to be found where no peer is registered under
    /// the name. Else the request is routed to that peer: as it is, or,
    /// between two legs, with the identifiers of the other leg.
    pub open spec fn route_request(
        self,
        msg: SipMessageView,
        registrations: Map<Seq<char>, PeerAddress>,
        dialogs: DialogsView,
        fresh: Option<FreshIdsView>,
    ) -> Routed {
        let refused = Routed { events: seq![ClientEventView::Send(self.response(msg, 400))], dialogs };
        if msg.via_header_branch() is None {
            refused
        } else {
            match msg.to_header_username() {
                None => refused,
                Some(callee) => if !registrations.contains_key(callee) {
                    Routed { events: seq![ClientEventView::Send(self.response(msg, 404))], dialogs }
                } else {
                    let addr = registrations[callee];
                    if !self.back_to_back {
                        Routed { events: seq![ClientEventView::Route { addr, msg }], dialogs }
                    } else {
                        match translated_request(msg, dialogs, fresh) {
                            Some((out, table)) => Routed {
                                events: seq![ClientEventView::Route { addr, msg: out }],
                                dialogs: table,
                            },
                            None => refused,
                        }
                    }
                },
            }
        }
    }

    /// What handling a response for another user comes to: it is routed to
    /// the peer of the user that `From` names, and dropped where there is
    /// none.
    pub open spec fn route_response(
        self,
        msg: SipMessageView,
        registrations: Map<Seq<char>, PeerAddress>,
    ) -> Seq<ClientEventView> {
        match msg.from_header_username() {
            Some(caller) => if registrations.contains_key(caller) {
                seq![ClientEventView::Route { addr: registrations[caller], msg }]
            } else {
                Seq::empty()
            },
            None => Seq::empty(),
        }
    }

    /// What handling a message of the client's own peer comes to.
    ///
    /// A message without a method is dropped. Of the requests, `REGISTER`
    /// and `SUBSCRIBE` are answered, `INVITE`, `BYE`, `ACK`, `CANCEL`,
    /// `REFER` and `NOTIFY` are routed to the callee, and any other is
    /// answered with success. Of the responses, those to `INVITE`, `BYE`,
    /// `CANCEL`, `REFER` and `NOTIFY` are routed to the caller, and any
    /// other is ignored.
    pub open spec fn on_msg(
        self,
        msg: SipMessageView,
        shared: SharedView,
        fresh: Option<FreshIdsView>,
    ) -> Outcome {
        match msg.method() {
            None => Outcome { events: Seq::empty(), shared },
            Some(method) => if msg.is_request() {
                if method == Method::Register {
                    Outcome {
                        events: self.register_events(msg),
                        shared: SharedView {
                            registrations: self.registered(msg, shared.registrations),
                            ..shared
                        },
                    }
                } else if method == Method::Subscribe {
                    Outcome {
                        events: self.subscribe_events(msg, shared.branches),
                        shared: SharedView {
                            branches: self.branches_after_subscribe(msg, shared.branches),
                            ..shared
                        },
                    }
                } else if routes_request(method) {
                    let routed = self.route_request(
                        msg,
                        shared.registrations,
                        shared.dialogs,
                        fresh,
                    );
                    Outcome {
                        events: routed.events,
                        shared: SharedView { dialogs: routed.dialogs, ..shared },
                    }
                } else {
                    Outcome { events: seq![ClientEventView::Send(self.response(msg, 200))], shared }
                }
            } else {
                if routes_response(method) {
                    Outcome { events: self.route_response(msg, shared.registrations), shared }
                } else {
                    Outcome { events: Seq::empty(), shared }
                }
            },
        }
    }

    /// Whether routing the request takes two ids of the table of dialogs:
    /// between two legs, where the request can be routed and opens a dialog.
    pub open spec fn route_takes_ids(
        self,
        msg: SipMessageView,
        registrations: Map<Seq<char>, PeerAddress>,
    ) -> bool {
        &&& self.back_to_back
        &&& msg.via_header_branch() is Some
        &&& msg.to_header_username() matches Some(callee) && registrations.contains_key(callee)
        &&& opens_dialog(msg)
    }

    /// Whether handling the message takes two ids of the table of dialogs.
    pub open spec fn takes_ids(
        self,
        msg: SipMessageView,
        registrations: Map<Seq<char>, PeerAddress>,
    ) -> bool {
        &&& msg.is_request()
        &&& msg.method() matches Some(method) && method != Method::Register && method
            != Method::Subscribe && routes_request(method)
        &&& self.route_takes_ids(msg, registrations)
    }

    /// Whether handling the message takes a branch: a subscription that is
    /// followed by a notification.
    pub open spec fn takes_branch(self, msg: SipMessageView) -> bool {
        &&& msg.is_request()
        &&& msg.method() == Some(Method::Subscribe)
        &&& self.notify(msg, Seq::empty()) is Some
    }

    /// Whether the message can be handled with what is left of the ids of
    /// the table of dialogs and of the branches.
    pub open spec fn can_handle(self, msg: SipMessageView, system: MySystemView, branches: nat)
        -> bool {
        &&& self.takes_ids(msg, system.registrations) ==> system.dialogs.next_id + 2 <= u32::MAX
        &&& self.takes_branch(msg) ==> branches < u64::MAX
    }

    /// Handling `msg` with the identifiers `fresh`, or with none, gave these
    /// events and left this behind. Identifiers are drawn only for a
    /// message that opens a dialog, and are made as the generator makes
    /// them.
    pub open spec fn handles(
        self,
        msg: SipMessageView,
        before: SharedView,
        fresh: Option<FreshIdsView>,
        events: Seq<ClientEventView>,
        after: SharedView,
    ) -> bool {
        &&& fresh matches Some(drawn) ==> self.takes_ids(msg, before.registrations)
            && drawn.generated()
        &&& events == self.on_msg(msg, before, fresh).events
        &&& after == self.on_msg(msg, before, fresh).shared
    }

    /// What handling a request that another client routed here comes to.
    ///
    /// The request goes to the peer with the `Via` of the server in the
    /// place of its own, under the branch that it came with; without a
    /// branch it is dropped. Between two legs the `Contact` of the server
    /// takes the place of its own too, and an `INVITE` without `Contact` is
    /// dropped.
    pub open spec fn on_routed_request(self, msg: SipMessageView) -> Seq<ClientEventView> {
        match msg.via_header_branch() {
            None => Seq::empty(),
            Some(branch) => {
                let out = msg.with_via_header(self.via(branch));
                if !self.back_to_back {
                    seq![ClientEventView::Send(out)]
                } else if out.contact_header() is Some {
                    seq![ClientEventView::Send(out.with_contact_header(self.contact()))]
                } else if out.method() == Some(Method::Invite) {
                    Seq::empty()
                } else {
                    seq![ClientEventView::Send(out)]
                }
            },
        }
    }

    /// What handling a response that another client routed here comes to.
    ///
    /// Outside of two legs the response goes to the peer as it is. Between
    /// two legs it goes with the identifiers of the dialog of this leg and
    /// with the `Contact` of the server in the place of its own; it is
    /// dropped where it cannot be translated, where it has neither
    /// `Contact` nor method, and where it answers an `INVITE` with success
    /// and has no `Contact`.
    pub open spec fn on_routed_response(
        self,
        msg: SipMessageView,
        dialogs: DialogsView,
    ) -> Seq<ClientEventView> {
        if !self.back_to_back {
            seq![ClientEventView::Send(msg)]
        } else {
            match translated_response(msg, dialogs) {
                None => Seq::empty(),
                Some(out) => if out.contact_header() is Some {
                    seq![ClientEventView::Send(out.with_contact_header(self.contact()))]
                } else {
                    match out.method() {
                        None => Seq::empty(),
                        Some(method) => if method != Method::Invite {
                            seq![ClientEventView::Send(out)]
                        } else {
                            match out.status_code() {
                                Some(code) => if 200 <= code <= 299 {
                                    Seq::empty()
                                } else {
                                    seq![ClientEventView::Send(out)]
                                },
                                None => Seq::empty(),
                            }
                        },
                    }
                },
            }
        }
    }

    /// What handling a message that another client routed here comes to.
    pub open spec fn on_routed_msg(self, msg: SipMessageView, dialogs: DialogsView) -> Routed {
        if msg.is_request() {
            Routed { events: self.on_routed_request(msg), dialogs }
        } else {
            Routed {
                events: self.on_routed_response(msg, dialogs),
                dialogs: if self.back_to_back {
                    dialogs_after_response(msg, dialogs)
                } else {
                    dialogs
                },
            }
        }
    }
}

} // verus!
