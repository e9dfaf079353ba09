//! The core of a SIP signalling server: a registrar, and a proxy or
//! back-to-back user agent that routes the requests of a call between the
//! users that registered.
//!
//! The crate holds what the server decides and none of its sockets. A
//! program around it reads bytes, parses them into a
//! [`SipMessage`](sip::SipMessage), and asks the parts of the crate in turn
//! what becomes of the message:
//!
//! - the reader of the datagram socket ([`udp_server`]) or of a connection
//!   ([`tcp_server`]) says whether a payload is parsed at all and whether
//!   its sender is new;
//! - the [`MessageRouter`] finds the worker of the client that a message is
//!   for;
//! - the [`ClientWorker`] hands the message to its [`MyClient`], which
//!   answers it, registers its sender, or routes it to another client, and
//!   returns [`ClientEvent`]s;
//! - the event handlers say where each event goes.
//!
//! The tables that the clients share are [`Registrations`] and
//! [`Dialogs`]. Every function states what it returns over the mathematical
//! value of its arguments, and the laws of the tables and of the client are
//! proved beside them.

pub mod client;
pub mod client_worker;
pub mod components;
pub mod message_router;
pub mod my_client;
pub mod my_client_factory;
pub mod my_system;
pub mod peer_address;
pub mod search;
pub mod sip;
pub mod sip_parse;
pub mod tcp_server;
pub mod text;
pub mod udp_server;
pub mod utils;
pub mod via_branch_generator;

pub use client::ClientEvent;
pub use client_worker::{ClientWorker, ClientWorkerMessage};
pub use components::{
    Dialog, DialogGen, DialogInfo, Dialogs, IncompleteDialog, IncompleteDialogInfo, Registrations,
};
pub use message_router::{MessageRouter, MessageRouterMessage, RouterAction};
pub use my_client::{FreshIds, MyClient};
pub use my_client_factory::MyClientFactory;
pub use my_system::MySystem;
pub use peer_address::{IpAddress, Ipv4Address, PeerAddress};
pub use utils::Utils;
pub use via_branch_generator::ViaBranchGenerator;
