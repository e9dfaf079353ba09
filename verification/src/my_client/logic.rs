//! The client of one peer: what it does with each message.

use vstd::prelude::*;
use crate::client::{no_event, one_event, ClientEvent, ClientEventView};
use crate::components::dialog_gen::DialogGen;
use crate::components::dialogs::{DialogInfo, Dialogs, IncompleteDialogInfo};
use crate::components::registrations::Registrations;
use crate::my_client::model::{
    dialogs_after_response, echo, echoed_headers, opens_dialog, shared, translated_request,
    translated_response, FreshIdsView, MyClientView,
};
use crate::my_system::MySystem;
use crate::peer_address::PeerAddress;
use crate::sip::headers::{Header, HeaderView, NamedHeader, SubscriptionState, ViaHeader};
use crate::sip::message::SipMessage;
use crate::sip::tokens::{Method, Transport, Version};
use crate::sip::uri::{Domain, Uri, UriAuth, UriParam, UriSchema};
use crate::utils::Utils;
use crate::via_branch_generator::branch_text;

verus! {

/// The identifiers that a request which opens a dialog uses up.
#[derive(Debug)]
pub struct FreshIds {
    /// The tag of the server on the leg on which the request came.
    pub incoming_server_tag: String,
    /// The tag of the server on the leg on which the request goes out.
    pub new_server_tag: String,
    /// The call identifier of the leg on which the request goes out.
    pub new_call_id: String,
}

impl View for FreshIds {
    type V = FreshIdsView;

    open spec fn view(&self) -> FreshIdsView {
        FreshIdsView {
            incoming_server_tag: self.incoming_server_tag@,
            new_server_tag: self.new_server_tag@,
            new_call_id: self.new_call_id@,
        }
    }
}

impl FreshIds {
    /// Draws the identifiers for one request; `None` where the operating
    /// system gives no random numbers.
    pub fn generate(dialog_gen: &DialogGen) -> (r: Option<Self>)
        ensures
            r matches Some(fresh) ==> fresh@.generated(),
    {
        let incoming_server_tag = match dialog_gen.tag() {
            Some(tag) => tag,
            None => {
                return None;
            },
        };
        let new_server_tag = match dialog_gen.tag() {
            Some(tag) => tag,
            None => {
                return None;
            },
        };
        let new_call_id = match dialog_gen.call_id() {
            Some(call_id) => call_id,
            None => {
                return None;
            },
        };
        Some(FreshIds { incoming_server_tag, new_server_tag, new_call_id })
    }
}

/// The mathematical value of identifiers that may be missing.
pub open spec fn fresh_view(fresh: Option<FreshIds>) -> Option<FreshIdsView> {
    match fresh {
        Some(drawn) => Some(drawn@),
        None => None,
    }
}

/// The client of one peer.
#[derive(Debug)]
pub struct MyClient {
    address: PeerAddress,
    transport: Transport,
    schema: UriSchema,
    domain: Domain,
    back_to_back: bool,
}

impl View for MyClient {
    type V = MyClientView;

    closed spec fn view(&self) -> MyClientView {
        MyClientView {
            address: self.address,
            transport: self.transport,
            schema: self.schema,
            domain: self.domain@,
            back_to_back: self.back_to_back,
        }
    }
}

impl MyClient {
    /// The client of the peer at `address`.
    pub fn new(
        address: PeerAddress,
        transport: Transport,
        schema: UriSchema,
        domain: Domain,
        back_to_back: bool,
    ) -> (r: Self)
        ensures
            r@ == (MyClientView { address, transport, schema, domain: domain@, back_to_back }),
    {
        Self { address, transport, schema, domain, back_to_back }
    }

    /// The address of the peer.
    pub fn address(&self) -> (r: PeerAddress)
        ensures
            r == self@.address,
    {
        self.address
    }

    /// The `Contact` value of the server.
    pub fn contact_hdr(&self) -> (r: NamedHeader)
        ensures
            r@ == self@.contact(),
    {
        NamedHeader::new(Uri::new(self.schema, self.domain.clone()))
    }

    /// The `Via` value of the server with a branch.
    pub fn via_hdr_with_branch(&self, branch: String) -> (r: ViaHeader)
        ensures
            r@ == self@.via(branch@),
    {
        let via_uri = Uri::new_schemaless(self.domain.clone());
        let via_uri = via_uri.parameter(UriParam::Branch(branch));
        ViaHeader::new(via_uri, self.transport)
    }

    /// The `Via` value of the server with a new branch.
    pub fn via_hdr(&self, utils: &mut Utils) -> (r: ViaHeader)
        requires
            old(utils)@ < u64::MAX,
        ensures
            r@ == self@.via(branch_text(old(utils)@)),
            final(utils)@ == old(utils)@ + 1,
    {
        let via_branch = utils.via_branch();
        self.via_hdr_with_branch(via_branch)
    }

    /// The headers of the response to `req`.
    fn response_headers(&self, req: &SipMessage) -> (r: Vec<Header>)
        ensures
            r.deep_view() == self@.response_headers(req@.headers()),
    {
        let headers = req.headers();
        let ghost from = headers.deep_view();
        let mut out: Vec<Header> = Vec::new();
        let mut i: usize = 0;
        assert(from.take(0) =~= Seq::empty());
        assert(out.deep_view() =~= Seq::empty());
        while i < headers.len()
            invariant
                i <= headers.len(),
                from == headers.deep_view(),
                out.deep_view() == echoed_headers(from.take(i as int)),
            decreases headers.len() - i,
        {
            let ghost before = out.deep_view();
            proof {
                assert(from.take(i + 1).drop_last() =~= from.take(i as int));
                assert(from.take(i + 1).last() == from[i as int]);
                assert(echoed_headers(from.take(i + 1)) == match echo(from[i as int]) {
                    Some(echoed) => before + seq![echoed],
                    None => before,
                });
            }
            match &headers[i] {
                Header::Contact(_) => {},
                Header::ContentLength(_) => {},
                Header::To(to) => {
                    let to = to.clone().param("tag", Some("123456"));
                    out.push(Header::To(to));
                },
                other => {
                    out.push(other.clone());
                },
            }
            assert(out.deep_view() =~= echoed_headers(from.take(i + 1)));
            i += 1;
        }
        assert(from.take(i as int) =~= from);
        let ghost echoed = out.deep_view();
        let contact = Header::Contact(self.contact_hdr());
        out.push(contact);
        out.push(Header::ContentLength(0));
        assert(out.deep_view() =~= echoed.push(contact@).push(HeaderView::ContentLength(0)));
        out
    }

    /// The response of the server to `req` with the status `code`: the
    /// headers of the request but `Contact` and `Content-Length`, with the
    /// server's tag in `To`, then the server's `Contact` and the length of
    /// an empty body.
    pub fn create_response(&self, req: &SipMessage, code: u32) -> (r: SipMessage)
        ensures
            r@ == self@.response(req@, code),
    {
        let headers = self.response_headers(req);
        SipMessage::Response { code, version: Version::default(), headers, body: Vec::new() }
    }

    /// The response of the server to `req`, with one more header at its
    /// end.
    pub fn create_response_with(&self, req: &SipMessage, code: u32, extra: Header) -> (r:
        SipMessage)
        ensures
            r@ == self@.response_with(req@, code, extra@),
    {
        let mut headers = self.response_headers(req);
        let ghost before = headers.deep_view();
        headers.push(extra);
        assert(headers.deep_view() =~= before.push(extra@));
        SipMessage::Response { code, version: Version::default(), headers, body: Vec::new() }
    }

    /// The event that sends the response to `req` with the status `code`.
    fn send_res(&self, req: &SipMessage, code: u32) -> (r: Vec<ClientEvent>)
        ensures
            r.deep_view() == seq![ClientEventView::Send(self@.response(req@, code))],
    {
        one_event(ClientEvent::Send(self.create_response(req, code)))
    }

    /// Handles a `REGISTER`: answers it, and registers the peer under the
    /// user of `To`, or unregisters that user where no time is asked.
    pub fn on_register(&self, msg: SipMessage, registrations: &mut Registrations) -> (r: Vec<
        ClientEvent,
    >)
        ensures
            r.deep_view() == self@.register_events(msg@),
            final(registrations)@ == self@.registered(msg@, old(registrations)@),
    {
        let username = match msg.to_header_username() {
            Some(username) => username.clone(),
            None => {
                return self.send_res(&msg, 400);
            },
        };
        let expires = match msg.expires() {
            Some(expires) => expires,
            None => {
                return self.send_res(&msg, 400);
            },
        };
        let response = self.create_response_with(&msg, 200, Header::Expires(expires));
        if expires > 0 {
            registrations.register_user(username, self.address);
        } else {
            registrations.unregister_user(username.as_str());
        }
        one_event(ClientEvent::Send(response))
    }

    /// The `From` header of a notification.
    fn notifier(to: &NamedHeader) -> (r: NamedHeader)
        ensures
            r@ == MyClientView::notifier(to@),
    {
        if to.tag().is_some() {
            to.clone()
        } else {
            to.clone().param("tag", Some("123456"))
        }
    }

    /// Handles a `SUBSCRIBE`: answers it, and notifies the subscriber at
    /// once.
    pub fn on_subscribe(&self, msg: SipMessage, utils: &mut Utils) -> (r: Vec<ClientEvent>)
        requires
            self@.notify(msg@, Seq::empty()) is Some ==> old(utils)@ < u64::MAX,
        ensures
            r.deep_view() == self@.subscribe_events(msg@, old(utils)@),
            final(utils)@ == self@.branches_after_subscribe(msg@, old(utils)@),
    {
        let mut events = self.send_res(&msg, 200);
        let uri_username = match msg.request_uri() {
            Some(uri) => match &uri.auth {
                Some(auth) => auth.username.clone(),
                None => {
                    return events;
                },
            },
            None => {
                return events;
            },
        };
        let from_hdr = match msg.from_header() {
            Some(from_hdr) => from_hdr.clone(),
            None => {
                return events;
            },
        };
        let to_hdr = match msg.to_header() {
            Some(to_hdr) => Self::notifier(to_hdr),
            None => {
                return events;
            },
        };
        let call_id = match msg.call_id() {
            Some(call_id) => call_id.clone(),
            None => {
                return events;
            },
        };
        let event = match msg.event() {
            Some(event) => event.clone(),
            None => {
                return events;
            },
        };
        let uri = Uri::new(self.schema, self.domain.clone());
        let uri = uri.auth(UriAuth::new(uri_username));
        let mut headers: Vec<Header> = Vec::new();
        headers.push(Header::Via(self.via_hdr(utils)));
        headers.push(Header::From(to_hdr));
        headers.push(Header::To(from_hdr));
        headers.push(Header::Event(event));
        headers.push(Header::MaxForwards(70));
        headers.push(Header::CallId(call_id));
        headers.push(Header::CSeq(50, Method::Notify));
        headers.push(Header::Contact(self.contact_hdr()));
        headers.push(Header::SubscriptionState(SubscriptionState::active_for(86400)));
        headers.push(Header::ContentLength(0));
        let request = SipMessage::Request {
            method: Method::Notify,
            uri,
            version: Version::default(),
            headers,
            body: Vec::new(),
        };
        proof {
            let wanted = self@.notify(msg@, branch_text(old(utils)@));
            assert(wanted is Some);
            assert(request@.headers() =~= wanted.unwrap().headers());
        }
        let ghost accepted = events.deep_view();
        events.push(ClientEvent::Send(request));
        assert(events.deep_view() =~= accepted.push(ClientEventView::Send(request@)));
        assert(events.deep_view() =~= self@.subscribe_events(msg@, old(utils)@));
        events
    }

    /// Changes the dialog of the request (its call identifier and tags) to
    /// the dialog of the other leg: of a request inside a dialog to the
    /// linked dialog, if there is one; of a request that opens a dialog to
    /// the identifiers in `fresh`, and both legs are written into the
    /// table. Returns `false`, and leaves the request and the table as they
    /// are, where the request lacks a call identifier or a tag in `From`,
    /// or opens a dialog and `fresh` holds no identifiers.
    pub fn convert_request_dialog(
        msg: &mut SipMessage,
        dialogs: &mut Dialogs,
        fresh: Option<FreshIds>,
    ) -> (r: bool)
        requires
            opens_dialog(old(msg)@) ==> old(dialogs)@.next_id + 2 <= u32::MAX,
        ensures
            match translated_request(old(msg)@, old(dialogs)@, fresh_view(fresh)) {
                Some((out, table)) => r && final(msg)@ == out && final(dialogs)@ == table,
                None => !r && final(msg)@ == old(msg)@ && final(dialogs)@ == old(dialogs)@,
            },
            old(dialogs)@.wf() ==> final(dialogs)@.wf(),
    {
        let client_tag = match msg.from_header_tag() {
            Some(from_tag) => from_tag.clone(),
            None => {
                return false;
            },
        };
        let call_id = match msg.call_id() {
            Some(call_id) => call_id.clone(),
            None => {
                return false;
            },
        };
        let server_tag = match msg.to_header_tag() {
            Some(to_tag) => Some(to_tag.clone()),
            None => None,
        };
        match server_tag {
            Some(server_tag) => {
                let linked = match dialogs.linked_dialog(
                    call_id.as_str(),
                    server_tag.as_str(),
                    client_tag.as_str(),
                ) {
                    Some(dialog) => Some(
                        (
                            dialog.call_id().clone(),
                            dialog.server_tag().clone(),
                            dialog.client_tag().clone(),
                        ),
                    ),
                    None => None,
                };
                match linked {
                    Some((other_call_id, other_server_tag, other_client_tag)) => {
                        msg.set_call_id(other_call_id);
                        msg.set_from_header_tag(other_server_tag);
                        msg.set_to_header_tag(other_client_tag);
                    },
                    None => {},
                }
            },
            None => {
                let drawn = match fresh {
                    Some(drawn) => drawn,
                    None => {
                        return false;
                    },
                };
                msg.set_from_header_tag(drawn.new_server_tag.clone());
                msg.set_call_id(drawn.new_call_id.clone());
                let incomplete_dialog = IncompleteDialogInfo::new(
                    drawn.new_call_id,
                    drawn.new_server_tag,
                );
                let dialog = DialogInfo::new(call_id, drawn.incoming_server_tag, client_tag);
                dialogs.add(dialog, incomplete_dialog);
            },
        }
        true
    }

    /// Establishes the leg that waited for this response, and changes the
    /// dialog of the response to the dialog of the other leg. Returns
    /// `false`, and leaves the response as it is, where the response lacks
    /// a call identifier or a tag, or no dialog is linked to its own.
    pub fn convert_response_dialog(msg: &mut SipMessage, dialogs: &mut Dialogs) -> (r: bool)
        ensures
            final(dialogs)@ == dialogs_after_response(old(msg)@, old(dialogs)@),
            match translated_response(old(msg)@, old(dialogs)@) {
                Some(out) => r && final(msg)@ == out,
                None => !r && final(msg)@ == old(msg)@,
            },
            old(dialogs)@.wf() ==> final(dialogs)@.wf(),
    {
        let server_tag = match msg.from_header_tag() {
            Some(server_tag) => server_tag.clone(),
            None => {
                return false;
            },
        };
        let client_tag = match msg.to_header_tag() {
            Some(client_tag) => client_tag.clone(),
            None => {
                return false;
            },
        };
        let call_id = match msg.call_id() {
            Some(call_id) => call_id.clone(),
            None => {
                return false;
            },
        };
        match dialogs.take_incomplete_dialog(call_id.as_str(), server_tag.as_str()) {
            Some(incomplete_dialog) => {
                dialogs.complete_dialog(incomplete_dialog, client_tag.clone());
            },
            None => {},
        }
        let linked = match dialogs.linked_dialog(
            call_id.as_str(),
            server_tag.as_str(),
            client_tag.as_str(),
        ) {
            Some(dialog) => Some(
                (
                    dialog.call_id().clone(),
                    dialog.server_tag().clone(),
                    dialog.client_tag().clone(),
                ),
            ),
            None => None,
        };
        match linked {
            Some((other_call_id, other_server_tag, other_client_tag)) => {
                msg.set_call_id(other_call_id);
                msg.set_from_header_tag(other_client_tag);
                msg.set_to_header_tag(other_server_tag);
                true
            },
            None => false,
        }
    }

    /// Routes a request to the client of the user that `To` names.
    pub fn route_request(
        &self,
        msg: SipMessage,
        system: &mut MySystem,
        fresh: Option<FreshIds>,
    ) -> (r: Vec<ClientEvent>)
        requires
            self@.route_takes_ids(msg@, old(system)@.registrations) ==> old(system)@.dialogs.next_id
                + 2 <= u32::MAX,
        ensures
            r.deep_view() == self@.route_request(
                msg@,
                old(system)@.registrations,
                old(system)@.dialogs,
                fresh_view(fresh),
            ).events,
            final(system)@.dialogs == self@.route_request(
                msg@,
                old(system)@.registrations,
                old(system)@.dialogs,
                fresh_view(fresh),
            ).dialogs,
            final(system)@.registrations == old(system)@.registrations,
            old(system)@.dialogs.wf() ==> final(system)@.dialogs.wf(),
    {
        if msg.via_header_branch().is_none() {
            return self.send_res(&msg, 400);
        }
        let callee_addr = match msg.to_header_username() {
            Some(callee) => match system.registrations.user_addr(callee.as_str()) {
                Some(callee_addr) => callee_addr,
                None => {
                    return self.send_res(&msg, 404);
                },
            },
            None => {
                return self.send_res(&msg, 400);
            },
        };
        let mut msg = msg;
        if !self.back_to_back || Self::convert_request_dialog(&mut msg, &mut system.dialogs, fresh) {
            one_event(ClientEvent::Route { addr: callee_addr, msg })
        } else {
            self.send_res(&msg, 400)
        }
    }

    /// Routes a response to the client of the user that `From` names.
    pub fn route_response(&self, msg: SipMessage, registrations: &Registrations) -> (r: Vec<
        ClientEvent,
    >)
        ensures
            r.deep_view() == self@.route_response(msg@, registrations@),
    {
        let caller_addr = match msg.from_header_username() {
            Some(caller) => registrations.user_addr(caller.as_str()),
            None => {
                return no_event();
            },
        };
        match caller_addr {
            Some(caller_addr) => one_event(ClientEvent::Route { addr: caller_addr, msg }),
            None => no_event(),
        }
    }

    /// Whether handling the message takes two ids of the table of dialogs.
    fn takes_ids(&self, msg: &SipMessage, registrations: &Registrations) -> (r: bool)
        ensures
            r == self@.takes_ids(msg@, registrations@),
    {
        if !msg.is_request() || !self.back_to_back {
            return false;
        }
        match msg.method() {
            Some(Method::Invite)
            | Some(Method::Bye)
            | Some(Method::Ack)
            | Some(Method::Cancel)
            | Some(Method::Refer)
            | Some(Method::Notify) => {},
            _ => {
                return false;
            },
        }
        if msg.via_header_branch().is_none() {
            return false;
        }
        match msg.to_header_username() {
            Some(callee) => {
                if registrations.user_addr(callee.as_str()).is_none() {
                    return false;
                }
            },
            None => {
                return false;
            },
        }
        msg.from_header_tag().is_some() && msg.call_id().is_some() && msg.to_header_tag().is_none()
    }

    /// Whether handling the message takes a branch.
    fn takes_branch(&self, msg: &SipMessage) -> (r: bool)
        ensures
            r == self@.takes_branch(msg@),
    {
        if !msg.is_request() {
            return false;
        }
        match msg.method() {
            Some(Method::Subscribe) => {},
            _ => {
                return false;
            },
        }
        let named = match msg.request_uri() {
            Some(uri) => uri.auth.is_some(),
            None => false,
        };
        named && msg.from_header().is_some() && msg.to_header().is_some() && msg.call_id().is_some()
            && msg.event().is_some()
    }

    /// Whether the message can be handled with what is left of the ids of
    /// the table of dialogs and of the branches. Where it cannot, a counter
    /// of the server has reached the end of its range.
    pub fn can_handle(&self, msg: &SipMessage, system: &MySystem, utils: &Utils) -> (r: bool)
        ensures
            r == self@.can_handle(msg@, system@, utils@),
    {
        let ids = !self.takes_ids(msg, &system.registrations) || system.dialogs.has_room();
        let branch = !self.takes_branch(msg) || utils.has_next();
        ids && branch
    }

    /// Handles a message of the client's own peer, with the identifiers
    /// that it may use up.
    pub fn on_msg_with(
        &self,
        msg: SipMessage,
        system: &mut MySystem,
        utils: &mut Utils,
        fresh: Option<FreshIds>,
    ) -> (r: Vec<ClientEvent>)
        requires
            self@.can_handle(msg@, old(system)@, old(utils)@),
        ensures
            r.deep_view() == self@.on_msg(
                msg@,
                shared(old(system)@, old(utils)@),
                fresh_view(fresh),
            ).events,
            shared(final(system)@, final(utils)@) == self@.on_msg(
                msg@,
                shared(old(system)@, old(utils)@),
                fresh_view(fresh),
            ).shared,
            old(system)@.dialogs.wf() ==> final(system)@.dialogs.wf(),
    {
        let method = match msg.method() {
            Some(method) => method,
            None => {
                return no_event();
            },
        };
        if msg.is_request() {
            match method {
                Method::Register => self.on_register(msg, &mut system.registrations),
                Method::Subscribe => self.on_subscribe(msg, utils),
                Method::Invite
                | Method::Bye
                | Method::Ack
                | Method::Cancel
                | Method::Refer
                | Method::Notify => self.route_request(msg, system, fresh),
                _ => self.send_res(&msg, 200),
            }
        } else {
            match method {
                Method::Invite
                | Method::Bye
                | Method::Cancel
                | Method::Refer
                | Method::Notify => self.route_response(msg, &system.registrations),
                _ => no_event(),
            }
        }
    }

    /// Handles a message of the client's own peer.
    pub fn on_msg(&self, msg: SipMessage, system: &mut MySystem, utils: &mut Utils) -> (r: Vec<
        ClientEvent,
    >)
        requires
            self@.can_handle(msg@, old(system)@, old(utils)@),
        ensures
            exists|fresh: Option<FreshIdsView>|
                self@.handles(
                    msg@,
                    shared(old(system)@, old(utils)@),
                    fresh,
                    r.deep_view(),
                    shared(final(system)@, final(utils)@),
                ),
            old(system)@.dialogs.wf() ==> final(system)@.dialogs.wf(),
    {
        let fresh = if self.takes_ids(&msg, &system.registrations) {
            FreshIds::generate(&system.dialog_gen)
        } else {
            None
        };
        let ghost drawn = fresh_view(fresh);
        let r = self.on_msg_with(msg, system, utils, fresh);
        assert(self@.handles(
            msg@,
            shared(old(system)@, old(utils)@),
            drawn,
            r.deep_view(),
            shared(system@, utils@),
        ));
        r
    }

    /// Handles a request that another client routed to this one: the
    /// request goes to the peer under the server's own `Via`, and, between
    /// two legs, under the server's own `Contact`.
    pub fn on_routed_request(&self, msg: SipMessage) -> (r: Vec<ClientEvent>)
        ensures
            r.deep_view() == self@.on_routed_request(msg@),
    {
        let via_branch = match msg.via_header_branch() {
            Some(via_branch) => via_branch.clone(),
            None => {
                return no_event();
            },
        };
        let mut msg = msg;
        msg.set_via_header(self.via_hdr_with_branch(via_branch));
        if self.back_to_back {
            if !msg.set_contact_header(self.contact_hdr()) {
                match msg.method() {
                    Some(Method::Invite) => {
                        return no_event();
                    },
                    _ => {},
                }
            }
        }
        one_event(ClientEvent::Send(msg))
    }

    /// Handles a response that another client routed to this one: between
    /// two legs the response gets the identifiers of this leg and the
    /// server's own `Contact`.
    pub fn on_routed_response(&self, msg: SipMessage, dialogs: &mut Dialogs) -> (r: Vec<
        ClientEvent,
    >)
        ensures
            r.deep_view() == self@.on_routed_response(msg@, old(dialogs)@),
            final(dialogs)@ == if self@.back_to_back {
                dialogs_after_response(msg@, old(dialogs)@)
            } else {
                old(dialogs)@
            },
            old(dialogs)@.wf() ==> final(dialogs)@.wf(),
    {
        let mut msg = msg;
        if self.back_to_back {
            if Self::convert_response_dialog(&mut msg, dialogs) {
                if !msg.set_contact_header(self.contact_hdr()) {
                    match msg.method() {
                        Some(Method::Invite) => {
                            match msg.status_code() {
                                Some(status_code) => {
                                    if status_code >= 200 && status_code <= 299 {
                                        return no_event();
                                    }
                                },
                                None => {
                                    return no_event();
                                },
                            }
                        },
                        Some(_) => {},
                        None => {
                            return no_event();
                        },
                    }
                }
            } else {
                return no_event();
            }
        }
        one_event(ClientEvent::Send(msg))
    }

    /// Handles a message that another client routed to this one.
    pub fn on_routed_msg(&self, msg: SipMessage, system: &mut MySystem) -> (r: Vec<ClientEvent>)
        ensures
            r.deep_view() == self@.on_routed_msg(msg@, old(system)@.dialogs).events,
            final(system)@.dialogs == self@.on_routed_msg(msg@, old(system)@.dialogs).dialogs,
            final(system)@.registrations == old(system)@.registrations,
            old(system)@.dialogs.wf() ==> final(system)@.dialogs.wf(),
    {
        if msg.is_request() {
            self.on_routed_request(msg)
        } else {
            self.on_routed_response(msg, &mut system.dialogs)
        }
    }
}

} // verus!
