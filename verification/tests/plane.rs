use sip_server::sip::{Header, Method, SipMessage, Version};
use sip_server::tcp_server::{TcpClientAction, TcpClientEventHandler};
use sip_server::udp_server::{
    UdpClientAction, UdpClientEventHandler, UdpReaderAction, UdpSocketReader,
};
use sip_server::{
    ClientEvent, ClientWorkerMessage, MessageRouter, MessageRouterMessage, PeerAddress,
    RouterAction,
};

fn msg(call_id: &str) -> SipMessage {
    SipMessage::Response {
        code: 200,
        version: Version::new(2, 0),
        headers: vec![Header::CallId(call_id.to_string()), Header::CSeq(1, Method::Invite)],
        body: Vec::new(),
    }
}

fn show<T: std::fmt::Debug>(value: &T) -> String {
    format!("{:?}", value)
}

fn addr(port: u16) -> PeerAddress {
    PeerAddress::udp_v4(10, 0, 0, 1, port)
}

#[test]
fn router_takes_one_worker_for_an_address() {
    let mut router: MessageRouter<&str> = MessageRouter::new();
    assert_eq!(router.worker(addr(1)), None);
    assert!(router.add_client_worker(addr(1), "first"));
    assert!(router.add_client_worker(addr(2), "second"));
    assert!(!router.add_client_worker(addr(1), "again"));
    assert_eq!(router.worker(addr(1)), Some(0));
    assert_eq!(router.worker(addr(2)), Some(1));
    assert_eq!(router.sender(0), Some(&"first"));
    assert_eq!(router.sender(1), Some(&"second"));
    assert_eq!(router.sender(2), None);
}

#[test]
fn router_says_what_becomes_of_each_message() {
    let mut router: MessageRouter<u8> = MessageRouter::new();
    let added = router.handle(MessageRouterMessage::ClientWorker { addr: addr(1), sender: 7 });
    assert_eq!(show(&added), show(&RouterAction::WorkerAdded));
    let again = router.handle(MessageRouterMessage::ClientWorker { addr: addr(1), sender: 8 });
    assert_eq!(show(&again), show(&RouterAction::WorkerExists { addr: addr(1) }));
    assert_eq!(router.sender(0), Some(&7));
    router.handle(MessageRouterMessage::ClientWorker { addr: addr(2), sender: 9 });

    let received = router.handle(MessageRouterMessage::ReceivedMessage {
        addr: addr(2),
        msg: msg("c1"),
    });
    assert_eq!(
        show(&received),
        show(&RouterAction::Deliver { worker: 1, msg: ClientWorkerMessage::Received(msg("c1")) })
    );
    let routed = router.handle(MessageRouterMessage::RoutedMessage {
        addr: addr(1),
        msg: msg("c2"),
    });
    assert_eq!(
        show(&routed),
        show(&RouterAction::Deliver { worker: 0, msg: ClientWorkerMessage::Routed(msg("c2")) })
    );
    let lost = router.handle(MessageRouterMessage::RoutedMessage {
        addr: addr(3),
        msg: msg("c3"),
    });
    assert_eq!(show(&lost), show(&RouterAction::NoWorker { addr: addr(3) }));
    let lost = router.handle(MessageRouterMessage::ReceivedMessage {
        addr: addr(3),
        msg: msg("c3"),
    });
    assert_eq!(show(&lost), show(&RouterAction::NoWorker { addr: addr(3) }));
}

#[test]
fn reader_makes_a_client_for_each_new_address() {
    let mut reader = UdpSocketReader::new();
    assert!(!reader.knows(addr(1)));
    let first = reader.read_msgs::<u8>(addr(1), msg("c1"));
    assert_eq!(
        show(&first),
        show(&UdpReaderAction::<u8>::NewClient {
            addr: addr(1),
            first: ClientWorkerMessage::Received(msg("c1")),
        })
    );
    assert!(reader.knows(addr(1)));
    assert!(!reader.knows(addr(2)));
    let second = reader.read_msgs::<u8>(addr(1), msg("c2"));
    assert_eq!(
        show(&second),
        show(&UdpReaderAction::<u8>::ToRouter(MessageRouterMessage::ReceivedMessage {
            addr: addr(1),
            msg: msg("c2"),
        }))
    );
    let other = reader.read_msgs::<u8>(addr(2), msg("c3"));
    match other {
        UdpReaderAction::NewClient { addr: a, .. } => assert_eq!(a, addr(2)),
        other => panic!("{:?}", other),
    }
    assert!(reader.knows(addr(2)));
}

#[test]
fn events_of_a_datagram_client_go_to_the_writer_or_the_router() {
    let handler = UdpClientEventHandler::new(addr(1));
    let send = handler.handle::<u8>(ClientEvent::Send(msg("c1")));
    match send {
        UdpClientAction::ToWriter(w) => {
            assert_eq!(w.addr, addr(1));
            assert_eq!(show(&w.msg), show(&msg("c1")));
        },
        other => panic!("{:?}", other),
    }
    let route = handler.handle::<u8>(ClientEvent::Route { addr: addr(2), msg: msg("c2") });
    assert_eq!(
        show(&route),
        show(&UdpClientAction::<u8>::ToRouter(MessageRouterMessage::RoutedMessage {
            addr: addr(2),
            msg: msg("c2"),
        }))
    );
}

#[test]
fn events_of_a_connection_client_go_to_the_stream_or_the_router() {
    let handler = TcpClientEventHandler::new();
    let send = handler.handle::<u8>(ClientEvent::Send(msg("c1")));
    assert_eq!(show(&send), show(&TcpClientAction::<u8>::Write(msg("c1"))));
    let route = handler.handle::<u8>(ClientEvent::Route { addr: addr(2), msg: msg("c2") });
    assert_eq!(
        show(&route),
        show(&TcpClientAction::<u8>::ToRouter(MessageRouterMessage::RoutedMessage {
            addr: addr(2),
            msg: msg("c2"),
        }))
    );
}

#[test]
fn router_keeps_the_workers_of_two_transports_apart() {
    let mut router: MessageRouter<&str> = MessageRouter::new();
    assert!(router.add_client_worker(PeerAddress::udp_v4(10, 0, 0, 1, 5070), "udp"));
    assert!(router.add_client_worker(PeerAddress::tcp_v4(10, 0, 0, 1, 5070), "tcp"));
    assert_eq!(router.worker(PeerAddress::tcp_v4(10, 0, 0, 1, 5070)), Some(1));
    assert_eq!(router.worker(PeerAddress::udp_v4(10, 0, 0, 1, 5070)), Some(0));
}
