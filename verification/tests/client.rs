use sip_server::sip::{
    Domain, Header, HeaderKind, Method, NamedHeader, SipMessage, SubscriptionState, Transport, Uri,
    UriAuth, UriParam, UriSchema, Version, ViaHeader,
};
use sip_server::{
    ClientEvent, Dialogs, FreshIds, Ipv4Address, MyClient, MySystem, PeerAddress, Utils,
};

fn server_domain() -> Domain {
    Domain::Ipv4(Ipv4Address::new(127, 0, 0, 1), Some(5060))
}

fn peer_a() -> PeerAddress {
    PeerAddress::udp_v4(127, 0, 0, 1, 40001)
}

fn peer_b() -> PeerAddress {
    PeerAddress::udp_v4(127, 0, 0, 1, 40002)
}

fn client(address: PeerAddress, back_to_back: bool) -> MyClient {
    MyClient::new(address, Transport::Udp, UriSchema::Sip, server_domain(), back_to_back)
}

fn user(name: &str) -> NamedHeader {
    let host = Domain::Domain("server".to_string(), None);
    NamedHeader::new(Uri::new(UriSchema::Sip, host).auth(UriAuth::new(name.to_string())))
}

fn tagged(name: &str, tag: &str) -> NamedHeader {
    user(name).param("tag", Some(tag))
}

fn peer_via(branch: &str) -> ViaHeader {
    let uri = Uri::new_schemaless(Domain::Ipv4(Ipv4Address::new(127, 0, 0, 1), Some(40001)));
    ViaHeader::new(uri.parameter(UriParam::Branch(branch.to_string())), Transport::Udp)
}

fn request(method: Method, to: &str, headers: Vec<Header>) -> SipMessage {
    let host = Domain::Domain("server".to_string(), None);
    SipMessage::Request {
        method,
        uri: Uri::new(UriSchema::Sip, host).auth(UriAuth::new(to.to_string())),
        version: Version::new(2, 0),
        headers,
        body: Vec::new(),
    }
}

fn show<T: std::fmt::Debug>(value: &T) -> String {
    format!("{:?}", value)
}

fn fresh(incoming_server_tag: &str, new_server_tag: &str, new_call_id: &str) -> Option<FreshIds> {
    Some(FreshIds {
        incoming_server_tag: incoming_server_tag.to_string(),
        new_server_tag: new_server_tag.to_string(),
        new_call_id: new_call_id.to_string(),
    })
}

fn sent(events: Vec<ClientEvent>) -> SipMessage {
    assert_eq!(events.len(), 1, "{:?}", events);
    match events.into_iter().next().unwrap() {
        ClientEvent::Send(msg) => msg,
        other => panic!("{:?}", other),
    }
}

fn routed(events: Vec<ClientEvent>) -> (PeerAddress, SipMessage) {
    assert_eq!(events.len(), 1, "{:?}", events);
    match events.into_iter().next().unwrap() {
        ClientEvent::Route { addr, msg } => (addr, msg),
        other => panic!("{:?}", other),
    }
}

fn kinds(msg: &SipMessage) -> Vec<HeaderKind> {
    msg.headers().iter().map(|h| h.kind()).collect()
}

#[test]
fn response_echoes_the_request_but_contact_and_length() {
    let req = request(
        Method::Options,
        "bob",
        vec![
            Header::Via(peer_via("z9hG4bK-1")),
            Header::Contact(user("alice")),
            Header::From(tagged("alice", "tA")),
            Header::To(user("bob")),
            Header::ContentLength(12),
            Header::CallId("c1".to_string()),
            Header::CSeq(4, Method::Options),
            Header::Contact(user("again")),
            Header::Other("User-Agent".to_string(), "phone".to_string()),
        ],
    );
    let res = client(peer_a(), false).create_response(&req, 486);
    let expected = SipMessage::Response {
        code: 486,
        version: Version::new(2, 0),
        headers: vec![
            Header::Via(peer_via("z9hG4bK-1")),
            Header::From(tagged("alice", "tA")),
            Header::To(tagged("bob", "123456")),
            Header::CallId("c1".to_string()),
            Header::CSeq(4, Method::Options),
            Header::Other("User-Agent".to_string(), "phone".to_string()),
            Header::Contact(NamedHeader::new(Uri::new(UriSchema::Sip, server_domain()))),
            Header::ContentLength(0),
        ],
        body: Vec::new(),
    };
    assert_eq!(show(&res), show(&expected));
    let contacts = kinds(&res).iter().filter(|k| **k == HeaderKind::Contact).count();
    let lengths = kinds(&res).iter().filter(|k| **k == HeaderKind::ContentLength).count();
    assert_eq!(contacts, 1);
    assert_eq!(lengths, 1);
}

#[test]
fn response_sets_the_tag_of_to_where_it_has_one_already() {
    let req = request(Method::Bye, "bob", vec![Header::To(tagged("bob", "tB").param("x", None))]);
    let res = client(peer_a(), true).create_response(&req, 404);
    let to = res.to_header().unwrap();
    assert_eq!(to.tag(), Some(&"123456".to_string()));
    assert_eq!(to.parameters.len(), 2);
    assert_eq!(req.to_header_tag(), Some(&"tB".to_string()));
}

#[test]
fn response_with_one_more_header_has_it_at_the_end() {
    let req = request(Method::Register, "alice", vec![Header::To(user("alice"))]);
    let res = client(peer_a(), true).create_response_with(&req, 200, Header::Expires(7));
    assert_eq!(
        kinds(&res),
        vec![HeaderKind::To, HeaderKind::Contact, HeaderKind::ContentLength, HeaderKind::Expires]
    );
    assert_eq!(res.expires_header(), Some(7));
    assert_eq!(res.status_code(), Some(200));
}

#[test]
fn own_headers_name_the_server() {
    let c = MyClient::new(peer_a(), Transport::Tcp, UriSchema::Sips, server_domain(), true);
    assert_eq!(c.address(), peer_a());
    let contact = c.contact_hdr();
    assert_eq!(show(&contact), show(&NamedHeader::new(Uri::new(UriSchema::Sips, server_domain()))));
    let via = c.via_hdr_with_branch("z9hG4bK-7".to_string());
    assert_eq!(via.transport, Transport::Tcp);
    assert_eq!(via.version, Version::new(2, 0));
    assert_eq!(via.uri.schema, None);
    assert_eq!(show(&via.uri.host), show(&server_domain()));
    assert_eq!(via.branch(), Some(&"z9hG4bK-7".to_string()));
    let mut utils = Utils::new();
    assert_eq!(c.via_hdr(&mut utils).branch(), Some(&"z9hG4bK-0".to_string()));
    assert_eq!(c.via_hdr(&mut utils).branch(), Some(&"z9hG4bK-1".to_string()));
}

#[test]
fn register_without_user_or_time_is_refused() {
    let c = client(peer_a(), true);
    let mut system = MySystem::new();
    let mut utils = Utils::new();
    let no_user = request(
        Method::Register,
        "alice",
        vec![
            Header::To(NamedHeader::new(Uri::new(UriSchema::Sip, server_domain()))),
            Header::Expires(60),
        ],
    );
    let res = sent(c.on_msg(no_user, &mut system, &mut utils));
    assert_eq!(res.status_code(), Some(400));
    let no_time = request(Method::Register, "alice", vec![Header::To(user("alice"))]);
    let res = sent(c.on_msg(no_time, &mut system, &mut utils));
    assert_eq!(res.status_code(), Some(400));
    assert_eq!(res.expires_header(), None);
    assert_eq!(system.registrations.user_addr("alice"), None);
}

#[test]
fn register_with_zero_time_for_an_unknown_user_is_a_no_op() {
    let c = client(peer_a(), true);
    let mut system = MySystem::new();
    let mut utils = Utils::new();
    system.registrations.register_user("bob".to_string(), peer_b());
    let msg = request(
        Method::Register,
        "alice",
        vec![Header::To(user("alice")), Header::Expires(0)],
    );
    let res = sent(c.on_msg(msg, &mut system, &mut utils));
    assert_eq!(res.status_code(), Some(200));
    assert_eq!(res.headers().len(), 5);
    match &res.headers()[4] {
        Header::Expires(0) => {},
        other => panic!("{:?}", other),
    }
    assert_eq!(system.registrations.user_addr("alice"), None);
    assert_eq!(system.registrations.user_addr("bob"), Some(peer_b()));
}

#[test]
fn register_takes_the_time_of_the_header_first() {
    let c = client(peer_a(), true);
    let mut system = MySystem::new();
    let mut utils = Utils::new();
    system.registrations.register_user("alice".to_string(), peer_b());
    let msg = request(
        Method::Register,
        "alice",
        vec![
            Header::To(user("alice")),
            Header::Expires(3600),
            Header::Contact(user("alice").param("expires", Some("0"))),
        ],
    );
    let res = sent(c.on_msg(msg, &mut system, &mut utils));
    assert_eq!(res.status_code(), Some(200));
    assert_eq!(
        kinds(&res),
        vec![
            HeaderKind::To,
            HeaderKind::Expires,
            HeaderKind::Contact,
            HeaderKind::ContentLength,
            HeaderKind::Expires
        ]
    );
    match &res.headers()[4] {
        Header::Expires(3600) => {},
        other => panic!("{:?}", other),
    }
    assert_eq!(system.registrations.user_addr("alice"), Some(peer_a()));
}

#[test]
fn register_with_zero_in_the_header_is_a_no_op_whatever_contact_says() {
    let c = client(peer_a(), true);
    let mut system = MySystem::new();
    let mut utils = Utils::new();
    system.registrations.register_user("bob".to_string(), peer_b());
    let msg = request(
        Method::Register,
        "alice",
        vec![
            Header::To(user("alice")),
            Header::Contact(user("alice").param("expires", Some("3600"))),
            Header::Expires(0),
        ],
    );
    let events = c.on_msg(msg, &mut system, &mut utils);
    let res = sent(events);
    assert_eq!(res.status_code(), Some(200));
    match res.headers().last() {
        Some(Header::Expires(0)) => {},
        other => panic!("{:?}", other),
    }
    assert_eq!(system.registrations.user_addr("alice"), None);
    assert_eq!(system.registrations.user_addr("bob"), Some(peer_b()));
    assert!(system.dialogs.take_incomplete_dialog("", "").is_none());
}

#[test]
fn register_without_the_header_takes_the_time_of_contact() {
    let c = client(peer_a(), true);
    let mut system = MySystem::new();
    let mut utils = Utils::new();
    let register = |expires: &str| {
        request(
            Method::Register,
            "alice",
            vec![
                Header::To(user("alice")),
                Header::Contact(user("alice").param("expires", Some(expires))),
            ],
        )
    };
    let res = sent(c.on_msg(register("60"), &mut system, &mut utils));
    assert_eq!(res.status_code(), Some(200));
    assert_eq!(res.expires_header(), Some(60));
    assert_eq!(system.registrations.user_addr("alice"), Some(peer_a()));
    let res = sent(c.on_msg(register("0"), &mut system, &mut utils));
    assert_eq!(res.status_code(), Some(200));
    assert_eq!(res.expires_header(), Some(0));
    assert_eq!(system.registrations.user_addr("alice"), None);
    let res = sent(c.on_msg(register("soon"), &mut system, &mut utils));
    assert_eq!(res.status_code(), Some(400));
}

#[test]
fn other_requests_are_answered_with_success() {
    let c = client(peer_a(), true);
    let mut system = MySystem::new();
    let mut utils = Utils::new();
    for method in [
        Method::Options,
        Method::PRack,
        Method::Publish,
        Method::Info,
        Method::Message,
        Method::Update,
    ] {
        let msg = request(method, "bob", vec![Header::To(user("bob"))]);
        let res = sent(c.on_msg(msg, &mut system, &mut utils));
        assert_eq!(res.status_code(), Some(200));
    }
}

#[test]
fn responses_without_a_method_or_of_other_methods_are_ignored() {
    let c = client(peer_a(), true);
    let mut system = MySystem::new();
    let mut utils = Utils::new();
    system.registrations.register_user("alice".to_string(), peer_b());
    let headers = |cseq: Option<Method>| {
        let mut headers = vec![Header::From(tagged("alice", "t")), Header::To(tagged("bob", "u"))];
        if let Some(method) = cseq {
            headers.push(Header::CSeq(1, method));
        }
        headers
    };
    let no_cseq = SipMessage::Response {
        code: 200,
        version: Version::new(2, 0),
        headers: headers(None),
        body: Vec::new(),
    };
    assert!(c.on_msg(no_cseq, &mut system, &mut utils).is_empty());
    for method in [Method::Register, Method::Subscribe, Method::Ack, Method::Options] {
        let msg = SipMessage::Response {
            code: 200,
            version: Version::new(2, 0),
            headers: headers(Some(method)),
            body: Vec::new(),
        };
        assert!(c.on_msg(msg, &mut system, &mut utils).is_empty());
    }
    for method in [Method::Invite, Method::Bye, Method::Cancel, Method::Refer, Method::Notify] {
        let msg = SipMessage::Response {
            code: 200,
            version: Version::new(2, 0),
            headers: headers(Some(method)),
            body: Vec::new(),
        };
        let expected = show(&msg);
        let (addr, out) = routed(c.on_msg(msg, &mut system, &mut utils));
        assert_eq!(addr, peer_b());
        assert_eq!(show(&out), expected);
    }
}

#[test]
fn response_for_an_unknown_caller_is_dropped() {
    let c = client(peer_b(), true);
    let mut system = MySystem::new();
    let mut utils = Utils::new();
    let msg = SipMessage::Response {
        code: 200,
        version: Version::new(2, 0),
        headers: vec![Header::From(tagged("alice", "t")), Header::CSeq(1, Method::Invite)],
        body: Vec::new(),
    };
    assert!(c.on_msg(msg, &mut system, &mut utils).is_empty());
    let nameless = SipMessage::Response {
        code: 200,
        version: Version::new(2, 0),
        headers: vec![Header::CSeq(1, Method::Invite)],
        body: Vec::new(),
    };
    assert!(c.on_msg(nameless, &mut system, &mut utils).is_empty());
}

#[test]
fn request_without_branch_or_callee_is_refused() {
    let c = client(peer_a(), false);
    let mut system = MySystem::new();
    let mut utils = Utils::new();
    system.registrations.register_user("bob".to_string(), peer_b());
    let no_branch = request(
        Method::Invite,
        "bob",
        vec![
            Header::Via(ViaHeader::new(Uri::new_schemaless(server_domain()), Transport::Udp)),
            Header::To(user("bob")),
        ],
    );
    assert_eq!(sent(c.on_msg(no_branch, &mut system, &mut utils)).status_code(), Some(400));
    let no_via = request(Method::Invite, "bob", vec![Header::To(user("bob"))]);
    assert_eq!(sent(c.on_msg(no_via, &mut system, &mut utils)).status_code(), Some(400));
    let no_callee = request(Method::Invite, "bob", vec![Header::Via(peer_via("z9hG4bK-1"))]);
    assert_eq!(sent(c.on_msg(no_callee, &mut system, &mut utils)).status_code(), Some(400));
}

#[test]
fn opening_request_without_tag_or_call_id_is_refused_between_two_legs() {
    let c = client(peer_a(), true);
    let mut system = MySystem::new();
    let mut utils = Utils::new();
    system.registrations.register_user("bob".to_string(), peer_b());
    let no_tag = request(
        Method::Invite,
        "bob",
        vec![
            Header::Via(peer_via("z9hG4bK-1")),
            Header::From(user("alice")),
            Header::To(user("bob")),
            Header::CallId("c1".to_string()),
        ],
    );
    let res = sent(c.on_msg_with(no_tag, &mut system, &mut utils, fresh("s", "n", "c")));
    assert_eq!(res.status_code(), Some(400));
    let no_call_id = request(
        Method::Invite,
        "bob",
        vec![
            Header::Via(peer_via("z9hG4bK-1")),
            Header::From(tagged("alice", "tA")),
            Header::To(user("bob")),
        ],
    );
    let res = sent(c.on_msg_with(no_call_id, &mut system, &mut utils, fresh("s", "n", "c")));
    assert_eq!(res.status_code(), Some(400));
    assert!(system.dialogs.take_incomplete_dialog("c", "n").is_none());
}

#[test]
fn request_in_an_unknown_dialog_is_forwarded_unchanged() {
    let c = client(peer_a(), true);
    let mut system = MySystem::new();
    let mut utils = Utils::new();
    system.registrations.register_user("bob".to_string(), peer_b());
    let msg = request(
        Method::Bye,
        "bob",
        vec![
            Header::Via(peer_via("z9hG4bK-9")),
            Header::From(tagged("alice", "tA")),
            Header::To(tagged("bob", "tS")),
            Header::CallId("c1".to_string()),
            Header::CSeq(2, Method::Bye),
        ],
    );
    let expected = show(&msg);
    let (addr, out) = routed(c.on_msg_with(msg, &mut system, &mut utils, fresh("s", "n", "c")));
    assert_eq!(addr, peer_b());
    assert_eq!(show(&out), expected);
    assert!(system.dialogs.take_incomplete_dialog("c", "n").is_none());
}

#[test]
fn convert_request_dialog_opens_both_legs() {
    let mut dialogs = Dialogs::new();
    let mut msg = request(
        Method::Invite,
        "bob",
        vec![
            Header::From(tagged("alice", "tA")),
            Header::To(user("bob")),
            Header::CallId("c1".to_string()),
        ],
    );
    assert!(MyClient::convert_request_dialog(&mut msg, &mut dialogs, fresh("sIn", "sOut", "c2")));
    assert_eq!(msg.call_id(), Some(&"c2".to_string()));
    assert_eq!(msg.from_header_tag(), Some(&"sOut".to_string()));
    assert_eq!(msg.to_header_tag(), None);
    assert!(dialogs.linked_dialog("c1", "sIn", "tA").is_none());
    let waiting = dialogs.take_incomplete_dialog("c2", "sOut").unwrap();
    dialogs.complete_dialog(waiting, "tB".to_string());
    let other = dialogs.linked_dialog("c1", "sIn", "tA").unwrap();
    assert_eq!(other.call_id(), "c2");
    assert_eq!(other.server_tag(), "sOut");
    assert_eq!(other.client_tag(), "tB");
}

#[test]
fn convert_response_dialog_needs_a_linked_dialog() {
    let mut dialogs = Dialogs::new();
    let mut msg = SipMessage::Response {
        code: 200,
        version: Version::new(2, 0),
        headers: vec![
            Header::From(tagged("alice", "sOut")),
            Header::To(tagged("bob", "tB")),
            Header::CallId("c2".to_string()),
        ],
        body: Vec::new(),
    };
    let before = show(&msg);
    assert!(!MyClient::convert_response_dialog(&mut msg, &mut dialogs));
    assert_eq!(show(&msg), before);
    let mut tagless = SipMessage::Response {
        code: 200,
        version: Version::new(2, 0),
        headers: vec![
            Header::From(tagged("alice", "sOut")),
            Header::To(user("bob")),
            Header::CallId("c2".to_string()),
        ],
        body: Vec::new(),
    };
    assert!(!MyClient::convert_response_dialog(&mut tagless, &mut dialogs));
}

#[test]
fn routed_request_gets_the_via_of_the_server() {
    let c = MyClient::new(peer_b(), Transport::Tcp, UriSchema::Sip, server_domain(), false);
    let msg = request(
        Method::Invite,
        "bob",
        vec![
            Header::Via(peer_via("z9hG4bK-xyz")),
            Header::Contact(user("alice")),
            Header::CallId("c1".to_string()),
        ],
    );
    let mut system = MySystem::new();
    let out = sent(c.on_routed_msg(msg, &mut system));
    let via = out.via_header().unwrap();
    assert_eq!(show(via), show(&c.via_hdr_with_branch("z9hG4bK-xyz".to_string())));
    assert_eq!(via.transport, Transport::Tcp);
    assert_eq!(out.contact_header().unwrap().username(), Some(&"alice".to_string()));
    assert_eq!(out.call_id(), Some(&"c1".to_string()));
}

#[test]
fn routed_request_without_branch_is_dropped() {
    let c = client(peer_b(), true);
    let mut system = MySystem::new();
    let msg = request(Method::Invite, "bob", vec![Header::Contact(user("alice"))]);
    assert!(c.on_routed_msg(msg, &mut system).is_empty());
}

#[test]
fn routed_invite_without_contact_is_dropped_between_two_legs() {
    let mut system = MySystem::new();
    let invite =
        || request(Method::Invite, "bob", vec![Header::Via(peer_via("z9hG4bK-xyz"))]);
    let bye = || request(Method::Bye, "bob", vec![Header::Via(peer_via("z9hG4bK-xyz"))]);
    assert!(client(peer_b(), true).on_routed_msg(invite(), &mut system).is_empty());
    assert_eq!(client(peer_b(), true).on_routed_msg(bye(), &mut system).len(), 1);
    assert_eq!(client(peer_b(), false).on_routed_msg(invite(), &mut system).len(), 1);
}

#[test]
fn routed_response_passes_as_it_is_outside_back_to_back() {
    let c = client(peer_a(), false);
    let mut system = MySystem::new();
    let msg = SipMessage::Response {
        code: 200,
        version: Version::new(2, 0),
        headers: vec![
            Header::From(tagged("alice", "tA")),
            Header::To(tagged("bob", "tB")),
            Header::CallId("c1".to_string()),
            Header::CSeq(1, Method::Invite),
            Header::Contact(user("bob")),
        ],
        body: Vec::new(),
    };
    let expected = show(&msg);
    assert_eq!(show(&sent(c.on_routed_msg(msg, &mut system))), expected);
}

#[test]
fn routed_response_without_dialog_is_dropped_between_two_legs() {
    let c = client(peer_a(), true);
    let mut system = MySystem::new();
    let msg = SipMessage::Response {
        code: 200,
        version: Version::new(2, 0),
        headers: vec![
            Header::From(tagged("alice", "tA")),
            Header::To(tagged("bob", "tB")),
            Header::CallId("c1".to_string()),
            Header::CSeq(1, Method::Invite),
            Header::Contact(user("bob")),
        ],
        body: Vec::new(),
    };
    assert!(c.on_routed_msg(msg, &mut system).is_empty());
}

#[test]
fn subscribe_without_event_is_only_answered() {
    let c = client(peer_a(), true);
    let mut system = MySystem::new();
    let mut utils = Utils::new();
    let msg = request(
        Method::Subscribe,
        "alice",
        vec![
            Header::From(tagged("alice", "tA")),
            Header::To(user("alice")),
            Header::CallId("c2".to_string()),
        ],
    );
    let res = sent(c.on_msg(msg, &mut system, &mut utils));
    assert_eq!(res.status_code(), Some(200));
    assert_eq!(utils.via_branch(), "z9hG4bK-0");
}

#[test]
fn notify_keeps_the_tag_that_to_has() {
    let c = client(peer_a(), true);
    let mut utils = Utils::new();
    let msg = request(
        Method::Subscribe,
        "alice",
        vec![
            Header::From(tagged("alice", "tA")),
            Header::To(tagged("alice", "kept")),
            Header::CallId("c2".to_string()),
            Header::Event("presence".to_string()),
        ],
    );
    let events = c.on_subscribe(msg, &mut utils);
    assert_eq!(events.len(), 2);
    match &events[1] {
        ClientEvent::Send(notify) => {
            assert_eq!(notify.from_header_tag(), Some(&"kept".to_string()));
        },
        other => panic!("{:?}", other),
    }
}

#[test]
fn subscription_state_of_a_notify_is_active() {
    assert_eq!(
        show(&SubscriptionState::active_for(86400)),
        show(&SubscriptionState::Active { expires: Some(86400), parameters: Vec::new() })
    );
}

#[test]
fn fresh_tables_can_handle_every_message() {
    let c = client(peer_a(), true);
    let mut system = MySystem::new();
    let utils = Utils::new();
    system.registrations.register_user("bob".to_string(), peer_b());
    let opening = request(
        Method::Invite,
        "bob",
        vec![
            Header::Via(peer_via("z9hG4bK-1")),
            Header::From(tagged("alice", "tA")),
            Header::To(user("bob")),
            Header::CallId("c1".to_string()),
        ],
    );
    assert!(c.can_handle(&opening, &system, &utils));
    let subscribe = request(
        Method::Subscribe,
        "alice",
        vec![
            Header::From(tagged("alice", "tA")),
            Header::To(user("alice")),
            Header::CallId("c2".to_string()),
            Header::Event("presence".to_string()),
        ],
    );
    assert!(c.can_handle(&subscribe, &system, &utils));
}

#[test]
fn opening_request_is_refused_where_no_identifiers_are_at_hand() {
    let c = client(peer_a(), true);
    let mut system = MySystem::new();
    let mut utils = Utils::new();
    system.registrations.register_user("bob".to_string(), peer_b());
    let opening = || {
        request(
            Method::Invite,
            "bob",
            vec![
                Header::Via(peer_via("z9hG4bK-1")),
                Header::From(tagged("alice", "tA")),
                Header::To(user("bob")),
                Header::CallId("c1".to_string()),
            ],
        )
    };
    let res = sent(c.on_msg_with(opening(), &mut system, &mut utils, None));
    assert_eq!(res.status_code(), Some(400));
    assert_eq!(res.call_id(), Some(&"c1".to_string()));
    let mut msg = opening();
    let before = show(&msg);
    assert!(!MyClient::convert_request_dialog(&mut msg, &mut system.dialogs, None));
    assert_eq!(show(&msg), before);

    let inside = request(
        Method::Bye,
        "bob",
        vec![
            Header::Via(peer_via("z9hG4bK-1")),
            Header::From(tagged("alice", "tA")),
            Header::To(tagged("bob", "tS")),
            Header::CallId("c1".to_string()),
        ],
    );
    let (addr, _) = routed(c.on_msg_with(inside, &mut system, &mut utils, None));
    assert_eq!(addr, peer_b());
}
