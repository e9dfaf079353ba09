//! Makes the client of each peer that the server meets.

use vstd::prelude::*;
use crate::my_client::{MyClient, MyClientView};
use crate::peer_address::PeerAddress;
use crate::sip::tokens::Transport;
use crate::sip::uri::{Domain, DomainView, UriSchema};

verus! {

/// Makes clients that answer under one name: the scheme and host that the
/// server writes into its own headers.
#[derive(Debug)]
pub struct MyClientFactory {
    transport: Transport,
    schema: UriSchema,
    domain: Domain,
    back_to_back: bool,
}

/// The mathematical value of a [`MyClientFactory`].
pub struct MyClientFactoryView {
    pub transport: Transport,
    pub schema: UriSchema,
    pub domain: DomainView,
    pub back_to_back: bool,
}

impl View for MyClientFactory {
    type V = MyClientFactoryView;

    closed spec fn view(&self) -> MyClientFactoryView {
        MyClientFactoryView {
            transport: self.transport,
            schema: self.schema,
            domain: self.domain@,
            back_to_back: self.back_to_back,
        }
    }
}

impl MyClientFactory {
    pub fn new(transport: Transport, schema: UriSchema, domain: Domain, back_to_back: bool) -> (r:
        Self)
        ensures
            r@ == (MyClientFactoryView { transport, schema, domain: domain@, back_to_back }),
    {
        Self { transport, schema, domain, back_to_back }
    }

    /// The client for the peer at `address`.
    pub fn create_client(&self, address: PeerAddress) -> (r: MyClient)
        ensures
            r@ == (MyClientView {
                address,
                transport: self@.transport,
                schema: self@.schema,
                domain: self@.domain,
                back_to_back: self@.back_to_back,
            }),
    {
        MyClient::new(
            address,
            self.transport,
            self.schema,
            self.domain.clone(),
            self.back_to_back,
        )
    }
}

} // verus!
