use sip_server::sip::{
    Domain, Header, HeaderKind, Method, NamedHeader, SipMessage, SubscriptionState, Transport, Uri,
    UriAuth, UriParam, UriSchema, Version, ViaHeader,
};
use sip_server::udp_server::{
    UdpClientAction, UdpClientEventHandler, UdpReaderAction, UdpSocketReader,
};
use sip_server::{
    ClientWorker, ClientWorkerMessage, FreshIds, Ipv4Address, MessageRouter, MessageRouterMessage,
    MyClient, MyClientFactory, MySystem, PeerAddress, RouterAction, Utils,
};

/// The server of the scenarios, run on one thread: what the reader, the
/// router, the workers and the event handlers decide is carried out at once
/// and in order.
struct Server {
    factory: MyClientFactory,
    system: MySystem,
    utils: Utils,
    reader: UdpSocketReader,
    router: MessageRouter<usize>,
    workers: Vec<(ClientWorker, UdpClientEventHandler)>,
}

fn server_domain() -> Domain {
    Domain::Ipv4(Ipv4Address::new(127, 0, 0, 1), Some(5060))
}

impl Server {
    fn new(back_to_back: bool) -> Server {
        Server {
            factory: MyClientFactory::new(
                Transport::Udp,
                UriSchema::Sip,
                server_domain(),
                back_to_back,
            ),
            system: MySystem::new(),
            utils: Utils::new(),
            reader: UdpSocketReader::new(),
            router: MessageRouter::new(),
            workers: Vec::new(),
        }
    }

    /// A datagram of `len` bytes from `from` that parses as `msg`. Returns
    /// what the writer sends, in order.
    fn datagram(
        &mut self,
        from: PeerAddress,
        len: usize,
        msg: SipMessage,
    ) -> Vec<(PeerAddress, SipMessage)> {
        let mut written = Vec::new();
        if !UdpSocketReader::read_msg(len) {
            return written;
        }
        let mut to_router: Vec<MessageRouterMessage<usize>> = Vec::new();
        match self.reader.read_msgs::<usize>(from, msg) {
            UdpReaderAction::ToRouter(m) => to_router.push(m),
            UdpReaderAction::NewClient { addr, first } => {
                let client = self.factory.create_client(addr);
                let worker = self.workers.len();
                self.workers.push((ClientWorker::new(client), UdpClientEventHandler::new(addr)));
                match self.router.handle(MessageRouterMessage::ClientWorker {
                    addr,
                    sender: worker,
                }) {
                    RouterAction::WorkerAdded => {},
                    other => panic!("{:?}", other),
                }
                self.work(worker, first, &mut to_router, &mut written);
            },
        }
        while !to_router.is_empty() {
            let m = to_router.remove(0);
            match self.router.handle(m) {
                RouterAction::Deliver { worker, msg } => {
                    let worker = *self.router.sender(worker).unwrap();
                    self.work(worker, msg, &mut to_router, &mut written);
                },
                RouterAction::NoWorker { .. } => {},
                other => panic!("{:?}", other),
            }
        }
        written
    }

    fn work(
        &mut self,
        worker: usize,
        msg: ClientWorkerMessage,
        to_router: &mut Vec<MessageRouterMessage<usize>>,
        written: &mut Vec<(PeerAddress, SipMessage)>,
    ) {
        assert!(self.workers[worker].0.can_handle(&msg, &self.system, &self.utils));
        let events =
            self.workers[worker].0.try_handle(msg, &mut self.system, &mut self.utils).unwrap();
        for event in events {
            match self.workers[worker].1.handle::<usize>(event) {
                UdpClientAction::ToRouter(m) => to_router.push(m),
                UdpClientAction::ToWriter(w) => written.push((w.addr, w.msg)),
            }
        }
    }
}

fn peer_a() -> PeerAddress {
    PeerAddress::udp_v4(127, 0, 0, 1, 40001)
}

fn peer_b() -> PeerAddress {
    PeerAddress::udp_v4(127, 0, 0, 1, 40002)
}

fn at_server(name: &str) -> Uri {
    Uri::new(UriSchema::Sip, Domain::Domain("server".to_string(), None))
        .auth(UriAuth::new(name.to_string()))
}

fn user(name: &str) -> NamedHeader {
    NamedHeader::new(at_server(name))
}

fn tagged(name: &str, tag: &str) -> NamedHeader {
    user(name).param("tag", Some(tag))
}

fn via_of(port: u16, branch: &str) -> ViaHeader {
    let uri = Uri::new_schemaless(Domain::Ipv4(Ipv4Address::new(127, 0, 0, 1), Some(port)));
    ViaHeader::new(uri.parameter(UriParam::Branch(branch.to_string())), Transport::Udp)
}

fn contact_of(name: &str, port: u16) -> NamedHeader {
    let host = Domain::Ipv4(Ipv4Address::new(127, 0, 0, 1), Some(port));
    NamedHeader::new(Uri::new(UriSchema::Sip, host).auth(UriAuth::new(name.to_string())))
}

fn server_contact() -> NamedHeader {
    NamedHeader::new(Uri::new(UriSchema::Sip, server_domain()))
}

fn server_via(branch: &str) -> ViaHeader {
    let uri = Uri::new_schemaless(server_domain());
    ViaHeader::new(uri.parameter(UriParam::Branch(branch.to_string())), Transport::Udp)
}

fn register(name: &str, port: u16, expires: u32) -> SipMessage {
    SipMessage::Request {
        method: Method::Register,
        uri: Uri::new(UriSchema::Sip, Domain::Domain("server".to_string(), None)),
        version: Version::new(2, 0),
        headers: vec![
            Header::Via(via_of(port, "z9hG4bK-reg")),
            Header::From(tagged(name, "tR")),
            Header::To(user(name)),
            Header::CallId("reg".to_string()),
            Header::CSeq(1, Method::Register),
            Header::Contact(contact_of(name, port)),
            Header::Expires(expires),
            Header::ContentLength(0),
        ],
        body: Vec::new(),
    }
}

fn invite() -> SipMessage {
    SipMessage::Request {
        method: Method::Invite,
        uri: at_server("bob"),
        version: Version::new(2, 0),
        headers: vec![
            Header::Via(via_of(40001, "z9hG4bK-xyz")),
            Header::From(tagged("alice", "tA")),
            Header::To(user("bob")),
            Header::CallId("c1".to_string()),
            Header::CSeq(1, Method::Invite),
            Header::Contact(contact_of("alice", 40001)),
            Header::ContentLength(0),
        ],
        body: Vec::new(),
    }
}

fn show<T: std::fmt::Debug>(value: &T) -> String {
    format!("{:?}", value)
}

fn only(written: Vec<(PeerAddress, SipMessage)>) -> (PeerAddress, SipMessage) {
    assert_eq!(written.len(), 1, "{:?}", written);
    written.into_iter().next().unwrap()
}

fn registered(back_to_back: bool) -> Server {
    let mut server = Server::new(back_to_back);
    let (to, res) = only(server.datagram(peer_a(), 300, register("alice", 40001, 3600)));
    assert_eq!(to, peer_a());
    assert_eq!(res.status_code(), Some(200));
    let (to, res) = only(server.datagram(peer_b(), 300, register("bob", 40002, 3600)));
    assert_eq!(to, peer_b());
    assert_eq!(res.status_code(), Some(200));
    server
}

#[test]
fn register_lookup_unregister_over_the_wire() {
    let mut server = Server::new(true);
    let (to, res) = only(server.datagram(peer_a(), 300, register("alice", 40001, 3600)));
    assert_eq!(to, peer_a());
    let expected = SipMessage::Response {
        code: 200,
        version: Version::new(2, 0),
        headers: vec![
            Header::Via(via_of(40001, "z9hG4bK-reg")),
            Header::From(tagged("alice", "tR")),
            Header::To(tagged("alice", "123456")),
            Header::CallId("reg".to_string()),
            Header::CSeq(1, Method::Register),
            Header::Expires(3600),
            Header::Contact(server_contact()),
            Header::ContentLength(0),
            Header::Expires(3600),
        ],
        body: Vec::new(),
    };
    assert_eq!(show(&res), show(&expected));
    assert_eq!(server.system.registrations.user_addr("alice"), Some(peer_a()));

    let (to, res) = only(server.datagram(peer_a(), 300, register("alice", 40001, 0)));
    assert_eq!(to, peer_a());
    assert_eq!(res.status_code(), Some(200));
    assert_eq!(res.expires_header(), Some(0));
    match res.headers().last() {
        Some(Header::Expires(0)) => {},
        other => panic!("{:?}", other),
    }
    assert_eq!(server.system.registrations.user_addr("alice"), None);
}

#[test]
fn invite_for_an_unregistered_callee_is_not_found() {
    let mut server = Server::new(true);
    only(server.datagram(peer_a(), 300, register("alice", 40001, 3600)));
    let (to, res) = only(server.datagram(peer_a(), 400, invite()));
    assert_eq!(to, peer_a());
    assert_eq!(res.status_code(), Some(404));
    assert_eq!(res.via_header_branch(), Some(&"z9hG4bK-xyz".to_string()));
    assert_eq!(res.call_id(), Some(&"c1".to_string()));
    assert_eq!(res.to_header_tag(), Some(&"123456".to_string()));
}

#[test]
fn invite_is_routed_as_it_is_by_a_proxy() {
    let mut server = registered(false);
    let (to, out) = only(server.datagram(peer_a(), 400, invite()));
    assert_eq!(to, peer_b());
    let expected = SipMessage::Request {
        method: Method::Invite,
        uri: at_server("bob"),
        version: Version::new(2, 0),
        headers: vec![
            Header::Via(server_via("z9hG4bK-xyz")),
            Header::From(tagged("alice", "tA")),
            Header::To(user("bob")),
            Header::CallId("c1".to_string()),
            Header::CSeq(1, Method::Invite),
            Header::Contact(contact_of("alice", 40001)),
            Header::ContentLength(0),
        ],
        body: Vec::new(),
    };
    assert_eq!(show(&out), show(&expected));
    assert_eq!(out.call_id(), Some(&"c1".to_string()));
    assert_eq!(out.from_header_tag(), Some(&"tA".to_string()));
    assert_eq!(out.to_header_tag(), None);
}

#[test]
fn call_is_spliced_between_two_legs() {
    let mut server = registered(true);

    // The INVITE of A reaches B under identifiers of its own.
    let (to, to_b) = only(server.datagram(peer_a(), 400, invite()));
    assert_eq!(to, peer_b());
    let leg_call_id = to_b.call_id().unwrap().clone();
    let leg_server_tag = to_b.from_header_tag().unwrap().clone();
    assert_ne!(leg_call_id, "c1");
    assert_ne!(leg_server_tag, "tA");
    assert_eq!(to_b.to_header_tag(), None);
    assert_eq!(to_b.from_header_username(), Some(&"alice".to_string()));
    assert_eq!(to_b.to_header_username(), Some(&"bob".to_string()));
    assert_eq!(show(to_b.via_header().unwrap()), show(&server_via("z9hG4bK-xyz")));
    assert_eq!(show(to_b.contact_header().unwrap()), show(&server_contact()));
    assert_eq!(to_b.method(), Some(Method::Invite));

    // B answers with its own tag.
    let answer = SipMessage::Response {
        code: 200,
        version: Version::new(2, 0),
        headers: vec![
            Header::Via(server_via("z9hG4bK-xyz")),
            Header::From(tagged("alice", &leg_server_tag)),
            Header::To(tagged("bob", "tB")),
            Header::CallId(leg_call_id.clone()),
            Header::CSeq(1, Method::Invite),
            Header::Contact(contact_of("bob", 40002)),
            Header::ContentLength(0),
        ],
        body: Vec::new(),
    };
    let (to, to_a) = only(server.datagram(peer_b(), 400, answer));
    assert_eq!(to, peer_a());
    assert_eq!(to_a.status_code(), Some(200));
    assert_eq!(to_a.call_id(), Some(&"c1".to_string()));
    assert_eq!(to_a.from_header_tag(), Some(&"tA".to_string()));
    let caller_server_tag = to_a.to_header_tag().unwrap().clone();
    assert_ne!(caller_server_tag, "tB");
    assert_eq!(show(to_a.contact_header().unwrap()), show(&server_contact()));

    // The ACK and the BYE of A are translated back to the dialog of B.
    for method in [Method::Ack, Method::Bye] {
        let next = SipMessage::Request {
            method,
            uri: at_server("bob"),
            version: Version::new(2, 0),
            headers: vec![
                Header::Via(via_of(40001, "z9hG4bK-next")),
                Header::From(tagged("alice", "tA")),
                Header::To(tagged("bob", &caller_server_tag)),
                Header::CallId("c1".to_string()),
                Header::CSeq(2, method),
                Header::ContentLength(0),
            ],
            body: Vec::new(),
        };
        let (to, to_b) = only(server.datagram(peer_a(), 400, next));
        assert_eq!(to, peer_b());
        assert_eq!(to_b.call_id(), Some(&leg_call_id));
        assert_eq!(to_b.from_header_tag(), Some(&leg_server_tag));
        assert_eq!(to_b.to_header_tag(), Some(&"tB".to_string()));
        assert_eq!(show(to_b.via_header().unwrap()), show(&server_via("z9hG4bK-next")));
    }

    // A BYE of B reaches A in the dialog of A.
    let bye = SipMessage::Request {
        method: Method::Bye,
        uri: at_server("alice"),
        version: Version::new(2, 0),
        headers: vec![
            Header::Via(via_of(40002, "z9hG4bK-bye")),
            Header::From(tagged("bob", "tB")),
            Header::To(tagged("alice", &leg_server_tag)),
            Header::CallId(leg_call_id.clone()),
            Header::CSeq(1, Method::Bye),
            Header::ContentLength(0),
        ],
        body: Vec::new(),
    };
    let (to, to_a) = only(server.datagram(peer_b(), 400, bye));
    assert_eq!(to, peer_a());
    assert_eq!(to_a.call_id(), Some(&"c1".to_string()));
    assert_eq!(to_a.from_header_tag(), Some(&caller_server_tag));
    assert_eq!(to_a.to_header_tag(), Some(&"tA".to_string()));
}

#[test]
fn call_is_spliced_with_given_identifiers() {
    let a = MyClient::new(peer_a(), Transport::Udp, UriSchema::Sip, server_domain(), true);
    let b = MyClient::new(peer_b(), Transport::Udp, UriSchema::Sip, server_domain(), true);
    let mut system = MySystem::new();
    let mut utils = Utils::new();
    system.registrations.register_user("alice".to_string(), peer_a());
    system.registrations.register_user("bob".to_string(), peer_b());
    let fresh = Some(FreshIds {
        incoming_server_tag: "sIn".to_string(),
        new_server_tag: "sOut".to_string(),
        new_call_id: "c2".to_string(),
    });

    let events = a.on_msg_with(invite(), &mut system, &mut utils, fresh);
    let expected = SipMessage::Request {
        method: Method::Invite,
        uri: at_server("bob"),
        version: Version::new(2, 0),
        headers: vec![
            Header::Via(via_of(40001, "z9hG4bK-xyz")),
            Header::From(tagged("alice", "sOut")),
            Header::To(user("bob")),
            Header::CallId("c2".to_string()),
            Header::CSeq(1, Method::Invite),
            Header::Contact(contact_of("alice", 40001)),
            Header::ContentLength(0),
        ],
        body: Vec::new(),
    };
    assert_eq!(
        show(&events),
        show(&vec![sip_server::ClientEvent::Route { addr: peer_b(), msg: expected }])
    );

    let answer = SipMessage::Response {
        code: 200,
        version: Version::new(2, 0),
        headers: vec![
            Header::From(tagged("alice", "sOut")),
            Header::To(tagged("bob", "tB")),
            Header::CallId("c2".to_string()),
            Header::CSeq(1, Method::Invite),
            Header::Contact(contact_of("bob", 40002)),
        ],
        body: Vec::new(),
    };
    let routed = b.on_msg(answer.clone(), &mut system, &mut utils);
    assert_eq!(
        show(&routed),
        show(&vec![sip_server::ClientEvent::Route { addr: peer_a(), msg: answer.clone() }])
    );
    let events = a.on_routed_msg(answer, &mut system);
    let expected = SipMessage::Response {
        code: 200,
        version: Version::new(2, 0),
        headers: vec![
            Header::From(tagged("alice", "tA")),
            Header::To(tagged("bob", "sIn")),
            Header::CallId("c1".to_string()),
            Header::CSeq(1, Method::Invite),
            Header::Contact(server_contact()),
        ],
        body: Vec::new(),
    };
    assert_eq!(show(&events), show(&vec![sip_server::ClientEvent::Send(expected)]));
}

#[test]
fn invite_answer_without_contact_is_dropped_between_two_legs() {
    let a = MyClient::new(peer_a(), Transport::Udp, UriSchema::Sip, server_domain(), true);
    let answer = |code: u32, method: Method| SipMessage::Response {
        code,
        version: Version::new(2, 0),
        headers: vec![
            Header::From(tagged("alice", "sOut")),
            Header::To(tagged("bob", "tB")),
            Header::CallId("c2".to_string()),
            Header::CSeq(1, method),
        ],
        body: Vec::new(),
    };
    let opened = || {
        let mut system = MySystem::new();
        let mut utils = Utils::new();
        system.registrations.register_user("bob".to_string(), peer_b());
        let fresh = Some(FreshIds {
            incoming_server_tag: "sIn".to_string(),
            new_server_tag: "sOut".to_string(),
            new_call_id: "c2".to_string(),
        });
        assert_eq!(a.on_msg_with(invite(), &mut system, &mut utils, fresh).len(), 1);
        system
    };
    assert!(a.on_routed_msg(answer(200, Method::Invite), &mut opened()).is_empty());
    assert!(a.on_routed_msg(answer(299, Method::Invite), &mut opened()).is_empty());
    assert_eq!(a.on_routed_msg(answer(180, Method::Invite), &mut opened()).len(), 1);
    assert_eq!(a.on_routed_msg(answer(300, Method::Invite), &mut opened()).len(), 1);
    assert_eq!(a.on_routed_msg(answer(200, Method::Bye), &mut opened()).len(), 1);
}

#[test]
fn subscribe_is_answered_and_notified() {
    let mut server = Server::new(true);
    let subscribe = SipMessage::Request {
        method: Method::Subscribe,
        uri: at_server("alice"),
        version: Version::new(2, 0),
        headers: vec![
            Header::Via(via_of(40001, "z9hG4bK-sub")),
            Header::From(tagged("a", "tA")),
            Header::To(user("alice")),
            Header::CallId("c2".to_string()),
            Header::CSeq(1, Method::Subscribe),
            Header::Event("presence".to_string()),
            Header::ContentLength(0),
        ],
        body: Vec::new(),
    };
    let written = server.datagram(peer_a(), 400, subscribe);
    assert_eq!(written.len(), 2);
    assert_eq!(written[0].0, peer_a());
    assert_eq!(written[0].1.status_code(), Some(200));
    assert_eq!(written[0].1.call_id(), Some(&"c2".to_string()));
    assert_eq!(written[1].0, peer_a());
    let expected = SipMessage::Request {
        method: Method::Notify,
        uri: Uri::new(UriSchema::Sip, server_domain()).auth(UriAuth::new("alice".to_string())),
        version: Version::new(2, 0),
        headers: vec![
            Header::Via(server_via("z9hG4bK-0")),
            Header::From(tagged("alice", "123456")),
            Header::To(tagged("a", "tA")),
            Header::Event("presence".to_string()),
            Header::MaxForwards(70),
            Header::CallId("c2".to_string()),
            Header::CSeq(50, Method::Notify),
            Header::Contact(server_contact()),
            Header::SubscriptionState(SubscriptionState::Active {
                expires: Some(86400),
                parameters: Vec::new(),
            }),
            Header::ContentLength(0),
        ],
        body: Vec::new(),
    };
    assert_eq!(show(&written[1].1), show(&expected));
    assert_eq!(
        written[1].1.headers().iter().map(|h| h.kind()).collect::<Vec<HeaderKind>>().len(),
        10
    );
    let again = SipMessage::Request {
        method: Method::Subscribe,
        uri: at_server("alice"),
        version: Version::new(2, 0),
        headers: vec![
            Header::From(tagged("a", "tA")),
            Header::To(user("alice")),
            Header::CallId("c3".to_string()),
            Header::Event("presence".to_string()),
        ],
        body: Vec::new(),
    };
    let written = server.datagram(peer_a(), 400, again);
    assert_eq!(written.len(), 2);
    assert_eq!(written[1].1.via_header_branch(), Some(&"z9hG4bK-1".to_string()));
}

#[test]
fn keep_alive_is_dropped_without_a_word() {
    let mut server = Server::new(true);
    let payload = b"\r\n\r\n";
    assert_eq!(payload.len(), 4);
    let written = server.datagram(peer_a(), payload.len(), register("alice", 40001, 3600));
    assert!(written.is_empty());
    assert!(!server.reader.knows(peer_a()));
    assert_eq!(server.system.registrations.user_addr("alice"), None);
    for len in 0..=4 {
        assert!(!UdpSocketReader::read_msg(len));
        assert!(!sip_server::tcp_server::msg_read::read_msg(len));
        assert!(!sip_server::sip_parse::worth_parsing(len));
    }
    assert!(UdpSocketReader::read_msg(5));
    assert!(sip_server::tcp_server::msg_read::read_msg(5));
    assert!(sip_server::sip_parse::worth_parsing(4096));
}
