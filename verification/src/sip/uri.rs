//! Addresses of the protocol: who is meant, on which host, with which
//! parameters.

use vstd::prelude::*;
use crate::peer_address::Ipv4Address;
use crate::sip::tokens::Transport;

verus! {

/// The scheme of a URI.
#[derive(Clone, Copy, Debug, PartialEq, Eq, Structural)]
pub enum UriSchema {
    Sip,
    Sips,
}

/// The host of a URI, with its port if it names one.
#[derive(Debug)]
pub enum Domain {
    Ipv4(Ipv4Address, Option<u16>),
    Domain(String, Option<u16>),
}

/// The mathematical value of a [`Domain`].
pub enum DomainView {
    Ipv4(Ipv4Address, Option<u16>),
    Domain(Seq<char>, Option<u16>),
}

impl View for Domain {
    type V = DomainView;

    open spec fn view(&self) -> DomainView {
        match self {
            Domain::Ipv4(address, port) => DomainView::Ipv4(*address, *port),
            Domain::Domain(name, port) => DomainView::Domain(name@, *port),
        }
    }
}

impl DeepView for Domain {
    type V = DomainView;

    open spec fn deep_view(&self) -> DomainView {
        self@
    }
}

impl Clone for Domain {
    fn clone(&self) -> (r: Self)
        ensures
            r@ == self@,
    {
        match self {
            Domain::Ipv4(address, port) => Domain::Ipv4(*address, *port),
            Domain::Domain(name, port) => Domain::Domain(name.clone(), *port),
        }
    }
}

/// The user part of a URI.
#[derive(Debug)]
pub struct UriAuth {
    pub username: String,
    pub password: Option<String>,
}

/// The mathematical value of a [`UriAuth`].
pub struct UriAuthView {
    pub username: Seq<char>,
    pub password: Option<Seq<char>>,
}

impl View for UriAuth {
    type V = UriAuthView;

    open spec fn view(&self) -> UriAuthView {
        UriAuthView { username: self.username@, password: self.password.deep_view() }
    }
}

impl DeepView for UriAuth {
    type V = UriAuthView;

    open spec fn deep_view(&self) -> UriAuthView {
        self@
    }
}

/// A copy of an optional text.
pub(crate) fn clone_text(text: &Option<String>) -> (r: Option<String>)
    ensures
        r.deep_view() == text.deep_view(),
{
    match text {
        Some(t) => Some(t.clone()),
        None => None,
    }
}

impl Clone for UriAuth {
    fn clone(&self) -> (r: Self)
        ensures
            r@ == self@,
    {
        UriAuth { username: self.username.clone(), password: clone_text(&self.password) }
    }
}

impl UriAuth {
    /// The user `username`, without a password.
    pub fn new(username: String) -> (r: Self)
        ensures
            r@ == (UriAuthView { username: username@, password: None }),
    {
        UriAuth { username, password: None }
    }
}

/// A parameter of a URI.
#[derive(Debug)]
pub enum UriParam {
    Transport(Transport),
    Branch(String),
    Received(Domain),
    RPort(Option<u16>),
    Other(String, Option<String>),
}

/// The mathematical value of a [`UriParam`].
pub enum UriParamView {
    Transport(Transport),
    Branch(Seq<char>),
    Received(DomainView),
    RPort(Option<u16>),
    Other(Seq<char>, Option<Seq<char>>),
}

impl View for UriParam {
    type V = UriParamView;

    open spec fn view(&self) -> UriParamView {
        match self {
            UriParam::Transport(t) => UriParamView::Transport(*t),
            UriParam::Branch(b) => UriParamView::Branch(b@),
            UriParam::Received(d) => UriParamView::Received(d@),
            UriParam::RPort(p) => UriParamView::RPort(*p),
            UriParam::Other(name, value) => UriParamView::Other(name@, value.deep_view()),
        }
    }
}

impl DeepView for UriParam {
    type V = UriParamView;

    open spec fn deep_view(&self) -> UriParamView {
        self@
    }
}

impl Clone for UriParam {
    fn clone(&self) -> (r: Self)
        ensures
            r@ == self@,
    {
        match self {
            UriParam::Transport(t) => UriParam::Transport(*t),
            UriParam::Branch(b) => UriParam::Branch(b.clone()),
            UriParam::Received(d) => UriParam::Received(d.clone()),
            UriParam::RPort(p) => UriParam::RPort(*p),
            UriParam::Other(name, value) => UriParam::Other(name.clone(), clone_text(value)),
        }
    }
}

/// A URI of the protocol.
#[derive(Debug)]
pub struct Uri {
    pub schema: Option<UriSchema>,
    pub host: Domain,
    pub auth: Option<UriAuth>,
    pub parameters: Vec<UriParam>,
}

/// The mathematical value of a [`Uri`].
pub struct UriView {
    pub schema: Option<UriSchema>,
    pub host: DomainView,
    pub auth: Option<UriAuthView>,
    pub parameters: Seq<UriParamView>,
}

impl View for Uri {
    type V = UriView;

    open spec fn view(&self) -> UriView {
        UriView {
            schema: self.schema,
            host: self.host@,
            auth: self.auth.deep_view(),
            parameters: self.parameters.deep_view(),
        }
    }
}

impl DeepView for Uri {
    type V = UriView;

    open spec fn deep_view(&self) -> UriView {
        self@
    }
}

impl UriView {
    /// The URI of a host under a scheme, with nothing else.
    pub open spec fn of(schema: UriSchema, host: DomainView) -> UriView {
        UriView { schema: Some(schema), host, auth: None, parameters: Seq::empty() }
    }

    /// The URI of a host without a scheme, as a `Via` header names it.
    pub open spec fn schemaless(host: DomainView) -> UriView {
        UriView { schema: None, host, auth: None, parameters: Seq::empty() }
    }

    /// This URI for the user `auth`.
    pub open spec fn with_auth(self, auth: UriAuthView) -> UriView {
        UriView { auth: Some(auth), ..self }
    }

    /// This URI with one more parameter at its end.
    pub open spec fn with_parameter(self, parameter: UriParamView) -> UriView {
        UriView { parameters: self.parameters.push(parameter), ..self }
    }

    /// The name of the user that the URI is for.
    pub open spec fn username(self) -> Option<Seq<char>> {
        match self.auth {
            Some(auth) => Some(auth.username),
            None => None,
        }
    }

    /// The places of the branch parameters.
    pub open spec fn is_branch() -> spec_fn(UriParamView) -> bool {
        |p: UriParamView| p is Branch
    }

    /// The value of the first branch parameter.
    pub open spec fn branch(self) -> Option<Seq<char>> {
        match crate::search::first_index(self.parameters, Self::is_branch()) {
            Some(i) => Some(self.parameters[i]->Branch_0),
            None => None,
        }
    }
}

impl Clone for Uri {
    fn clone(&self) -> (r: Self)
        ensures
            r@ == self@,
    {
        let mut parameters: Vec<UriParam> = Vec::new();
        let mut i: usize = 0;
        while i < self.parameters.len()
            invariant
                i <= self.parameters.len(),
                parameters.len() == i,
                forall|j: int| 0 <= j < i ==> parameters[j]@ == self.parameters[j]@,
            decreases self.parameters.len() - i,
        {
            parameters.push(self.parameters[i].clone());
            i += 1;
        }
        let auth = match &self.auth {
            Some(a) => Some(a.clone()),
            None => None,
        };
        let r = Uri { schema: self.schema, host: self.host.clone(), auth, parameters };
        assert(r@.parameters =~= self@.parameters);
        r
    }
}

impl Uri {
    /// The URI of a host under a scheme.
    pub fn new(schema: UriSchema, host: Domain) -> (r: Self)
        ensures
            r@ == UriView::of(schema, host@),
    {
        let r = Uri { schema: Some(schema), host, auth: None, parameters: Vec::new() };
        assert(r@.parameters =~= Seq::empty());
        r
    }

    /// The URI of a host without a scheme.
    pub fn new_schemaless(host: Domain) -> (r: Self)
        ensures
            r@ == UriView::schemaless(host@),
    {
        let r = Uri { schema: None, host, auth: None, parameters: Vec::new() };
        assert(r@.parameters =~= Seq::empty());
        r
    }

    /// This URI for the user `auth`.
    pub fn auth(self, auth: UriAuth) -> (r: Self)
        ensures
            r@ == self@.with_auth(auth@),
    {
        Uri { schema: self.schema, host: self.host, auth: Some(auth), parameters: self.parameters }
    }

    /// This URI with one more parameter at its end.
    pub fn parameter(self, p: UriParam) -> (r: Self)
        ensures
            r@ == self@.with_parameter(p@),
    {
        let mut parameters = self.parameters;
        parameters.push(p);
        let r = Uri { schema: self.schema, host: self.host, auth: self.auth, parameters };
        assert(r@.parameters =~= self@.parameters.push(p@));
        r
    }
}

} // verus!
