//! The headers of a message.

use vstd::prelude::*;
use crate::search::{
    first_index, lemma_first_index, lemma_first_index_is, lemma_first_index_push,
    lemma_first_index_same,
};
use crate::sip::tokens::{Method, Transport, Version};
use crate::sip::uri::{clone_text, Uri, UriParam, UriView};
use crate::text::{parse_u32, parse_u32_text};

verus! {

/// The mathematical value of a list of parameters: names with their values,
/// in the order in which they were written.
pub type ParametersView = Seq<(Seq<char>, Option<Seq<char>>)>;

/// The parameters with this name.
pub open spec fn is_named(name: Seq<char>) -> spec_fn((Seq<char>, Option<Seq<char>>)) -> bool {
    |p: (Seq<char>, Option<Seq<char>>)| p.0 == name
}

/// The value of the first parameter with this name, where there is such a
/// parameter and it has a value.
pub open spec fn param_value(params: ParametersView, name: Seq<char>) -> Option<Seq<char>> {
    match first_index(params, is_named(name)) {
        Some(i) => params[i].1,
        None => None,
    }
}

/// The parameters after `name` was set to `value`: the first parameter with
/// this name is overwritten; where there is none, one is added at the end.
pub open spec fn params_with(
    params: ParametersView,
    name: Seq<char>,
    value: Option<Seq<char>>,
) -> ParametersView {
    match first_index(params, is_named(name)) {
        Some(i) => params.update(i, (name, value)),
        None => params.push((name, value)),
    }
}

/// No name stands twice in the list.
pub open spec fn distinct_names(params: ParametersView) -> bool {
    forall|i: int, j: int|
        0 <= i < j < params.len() ==> (#[trigger] params[i]).0 != (#[trigger] params[j]).0
}

/// A parameter that was set is read back, and the others are as they were.
pub proof fn lemma_params_with(
    params: ParametersView,
    name: Seq<char>,
    value: Option<Seq<char>>,
    other: Seq<char>,
)
    ensures
        param_value(params_with(params, name, value), name) == value,
        other != name ==> param_value(params_with(params, name, value), other) == param_value(
            params,
            other,
        ),
{
    let after = params_with(params, name, value);
    lemma_first_index(params, is_named(name));
    lemma_first_index(params, is_named(other));
    match first_index(params, is_named(name)) {
        Some(i) => {
            lemma_first_index_same(after, params, is_named(name));
            lemma_first_index_same(after, params, is_named(other));
        },
        None => {
            lemma_first_index_push(params, (name, value), is_named(name));
            lemma_first_index_push(params, (name, value), is_named(other));
        },
    }
}

/// Setting a parameter puts no name into the list twice.
pub proof fn lemma_params_with_distinct(
    params: ParametersView,
    name: Seq<char>,
    value: Option<Seq<char>>,
)
    requires
        distinct_names(params),
    ensures
        distinct_names(params_with(params, name, value)),
{
    let after = params_with(params, name, value);
    lemma_first_index(params, is_named(name));
    match first_index(params, is_named(name)) {
        Some(i) => {
            assert forall|k: int, l: int| 0 <= k < l < after.len() implies (
            #[trigger] after[k]).0 != (#[trigger] after[l]).0 by {
                assert(after[k].0 == params[k].0);
                assert(after[l].0 == params[l].0);
            }
        },
        None => {
            let n = params.len() as int;
            assert forall|k: int, l: int| 0 <= k < l < after.len() implies (
            #[trigger] after[k]).0 != (#[trigger] after[l]).0 by {
                assert(after[k] == params[k]);
                assert(!is_named(name)(params[k]));
                if l < n {
                    assert(after[l] == params[l]);
                }
            }
        },
    }
}

/// The place of the first parameter named `name`.
pub(crate) fn find_param(params: &Vec<(String, Option<String>)>, name: &String) -> (r: Option<usize>)
    ensures
        r matches Some(i) ==> first_index(params.deep_view(), is_named(name@)) == Some(i as int),
        r is None ==> first_index(params.deep_view(), is_named(name@)) is None,
{
    let ghost wanted = is_named(name@);
    let mut i: usize = 0;
    while i < params.len()
        invariant
            i <= params.len(),
            wanted == is_named(name@),
            forall|j: int| 0 <= j < i ==> !wanted(#[trigger] params.deep_view()[j]),
        decreases params.len() - i,
    {
        if params[i].0 == *name {
            proof {
                assert(wanted(params.deep_view()[i as int]));
                lemma_first_index_is(params.deep_view(), wanted, i as int);
            }
            return Some(i);
        }
        i += 1;
    }
    proof {
        lemma_first_index(params.deep_view(), wanted);
    }
    None
}

/// Sets the parameter `name` to `value`.
pub(crate) fn set_param(params: &mut Vec<(String, Option<String>)>, name: String, value: Option<String>)
    ensures
        final(params).deep_view() == params_with(
            old(params).deep_view(),
            name@,
            value.deep_view(),
        ),
        distinct_names(old(params).deep_view()) ==> distinct_names(final(params).deep_view()),
{
    proof {
        if distinct_names(old(params).deep_view()) {
            lemma_params_with_distinct(old(params).deep_view(), name@, value.deep_view());
        }
    }
    match find_param(params, &name) {
        Some(i) => {
            params.set(i, (name, value));
        },
        None => {
            params.push((name, value));
        },
    }
    assert(params.deep_view() =~= params_with(old(params).deep_view(), name@, value.deep_view()));
}

/// A copy of a list of parameters.
pub(crate) fn clone_params(params: &Vec<(String, Option<String>)>) -> (r: Vec<(String, Option<String>)>)
    ensures
        r.deep_view() == params.deep_view(),
{
    let mut out: Vec<(String, Option<String>)> = Vec::new();
    let mut i: usize = 0;
    while i < params.len()
        invariant
            i <= params.len(),
            out.len() == i,
            forall|j: int| 0 <= j < i ==> out[j].deep_view() == params[j].deep_view(),
        decreases params.len() - i,
    {
        out.push((params[i].0.clone(), clone_text(&params[i].1)));
        i += 1;
    }
    assert(out.deep_view() =~= params.deep_view());
    out
}

/// The value of a header that names someone: `To`, `From`, `Contact`.
#[derive(Debug)]
pub struct NamedHeader {
    pub display_name: Option<String>,
    pub uri: Uri,
    pub parameters: Vec<(String, Option<String>)>,
}

/// The mathematical value of a [`NamedHeader`].
pub struct NamedHeaderView {
    pub display_name: Option<Seq<char>>,
    pub uri: UriView,
    pub parameters: ParametersView,
}

impl View for NamedHeader {
    type V = NamedHeaderView;

    open spec fn view(&self) -> NamedHeaderView {
        NamedHeaderView {
            display_name: self.display_name.deep_view(),
            uri: self.uri@,
            parameters: self.parameters.deep_view(),
        }
    }
}

impl DeepView for NamedHeader {
    type V = NamedHeaderView;

    open spec fn deep_view(&self) -> NamedHeaderView {
        self@
    }
}

impl NamedHeaderView {
    /// The header that names `uri` and nothing else.
    pub open spec fn of(uri: UriView) -> NamedHeaderView {
        NamedHeaderView { display_name: None, uri, parameters: Seq::empty() }
    }

    /// Each parameter of the header stands once: no name occurs twice.
    pub open spec fn well_formed(self) -> bool {
        distinct_names(self.parameters)
    }

    /// The value of the parameter `name`.
    pub open spec fn param(self, name: Seq<char>) -> Option<Seq<char>> {
        param_value(self.parameters, name)
    }

    /// This header with the parameter `name` set to `value`.
    pub open spec fn with_param(self, name: Seq<char>, value: Option<Seq<char>>) -> NamedHeaderView {
        NamedHeaderView { parameters: params_with(self.parameters, name, value), ..self }
    }

    /// The tag of the header.
    pub open spec fn tag(self) -> Option<Seq<char>> {
        self.param("tag"@)
    }

    /// This header with its tag set to `tag`.
    pub open spec fn with_tag(self, tag: Seq<char>) -> NamedHeaderView {
        self.with_param("tag"@, Some(tag))
    }

    /// The name of the user that the header names.
    pub open spec fn username(self) -> Option<Seq<char>> {
        self.uri.username()
    }

    /// The number of seconds in the `expires` parameter of the header.
    pub open spec fn expires(self) -> Option<u32> {
        match self.param("expires"@) {
            Some(text) => parse_u32_text(text),
            None => None,
        }
    }
}

impl Clone for NamedHeader {
    fn clone(&self) -> (r: Self)
        ensures
            r@ == self@,
    {
        NamedHeader {
            display_name: clone_text(&self.display_name),
            uri: self.uri.clone(),
            parameters: clone_params(&self.parameters),
        }
    }
}

impl NamedHeader {
    /// The header that names `uri` and nothing else.
    pub fn new(uri: Uri) -> (r: Self)
        ensures
            r@ == NamedHeaderView::of(uri@),
            r@.well_formed(),
    {
        let r = NamedHeader { display_name: None, uri, parameters: Vec::new() };
        assert(r@.parameters =~= Seq::empty());
        r
    }

    /// Sets `display_name` of this header.
    pub fn name(self, name: &str) -> (r: Self)
        ensures
            r@ == (NamedHeaderView { display_name: Some(name@), ..self@ }),
            self@.well_formed() ==> r@.well_formed(),
    {
        NamedHeader {
            display_name: Some(name.to_owned()),
            uri: self.uri,
            parameters: self.parameters,
        }
    }

    /// Gives the parameter `name` the value `value`. If there is already a
    /// parameter with this name, its value is changed.
    pub fn param(self, name: &str, value: Option<&str>) -> (r: Self)
        ensures
            r@ == self@.with_param(name@, value.deep_view()),
            self@.well_formed() ==> r@.well_formed(),
    {
        let mut r = self;
        r.set_param(name, value);
        r
    }

    /// Gives the parameter `name` the value `value`. If there is already a
    /// parameter with this name, its value is changed.
    pub fn set_param(&mut self, name: &str, value: Option<&str>)
        ensures
            final(self)@ == old(self)@.with_param(name@, value.deep_view()),
            old(self)@.well_formed() ==> final(self)@.well_formed(),
    {
        let owned = match value {
            Some(v) => Some(v.to_owned()),
            None => None,
        };
        set_param(&mut self.parameters, name.to_owned(), owned);
    }

    /// The value of the parameter `name`.
    pub fn param_value(&self, name: &str) -> (r: Option<&String>)
        ensures
            r.deep_view() == self@.param(name@),
    {
        let wanted = name.to_owned();
        match find_param(&self.parameters, &wanted) {
            Some(i) => self.parameters[i].1.as_ref(),
            None => None,
        }
    }

    /// The tag of the header.
    pub fn tag(&self) -> (r: Option<&String>)
        ensures
            r.deep_view() == self@.tag(),
    {
        self.param_value("tag")
    }

    /// The name of the user that the header names.
    pub fn username(&self) -> (r: Option<&String>)
        ensures
            r.deep_view() == self@.username(),
    {
        match &self.uri.auth {
            Some(auth) => Some(&auth.username),
            None => None,
        }
    }

    /// The number of seconds in the `expires` parameter of the header.
    pub fn expires(&self) -> (r: Option<u32>)
        ensures
            r == self@.expires(),
    {
        match self.param_value("expires") {
            Some(text) => parse_u32(text.as_str()),
            None => None,
        }
    }
}

/// The value of a `Via` header.
#[derive(Debug)]
pub struct ViaHeader {
    pub version: Version,
    pub transport: Transport,
    pub uri: Uri,
}

/// The mathematical value of a [`ViaHeader`].
pub struct ViaHeaderView {
    pub version: Version,
    pub transport: Transport,
    pub uri: UriView,
}

impl View for ViaHeader {
    type V = ViaHeaderView;

    open spec fn view(&self) -> ViaHeaderView {
        ViaHeaderView { version: self.version, transport: self.transport, uri: self.uri@ }
    }
}

impl DeepView for ViaHeader {
    type V = ViaHeaderView;

    open spec fn deep_view(&self) -> ViaHeaderView {
        self@
    }
}

impl ViaHeaderView {
    /// The `Via` value of the current protocol version.
    pub open spec fn of(uri: UriView, transport: Transport) -> ViaHeaderView {
        ViaHeaderView { version: Version::current(), transport, uri }
    }

    /// The branch that the header carries.
    pub open spec fn branch(self) -> Option<Seq<char>> {
        self.uri.branch()
    }
}

impl Clone for ViaHeader {
    fn clone(&self) -> (r: Self)
        ensures
            r@ == self@,
    {
        ViaHeader { version: self.version, transport: self.transport, uri: self.uri.clone() }
    }
}

impl ViaHeader {
    pub fn new(uri: Uri, transport: Transport) -> (r: Self)
        ensures
            r@ == ViaHeaderView::of(uri@, transport),
    {
        ViaHeader { version: Version::default(), transport, uri }
    }

    /// The branch that the header carries.
    pub fn branch(&self) -> (r: Option<&String>)
        ensures
            r.deep_view() == self@.branch(),
    {
        let ghost wanted = UriView::is_branch();
        let mut i: usize = 0;
        while i < self.uri.parameters.len()
            invariant
                i <= self.uri.parameters.len(),
                wanted == UriView::is_branch(),
                forall|j: int| 0 <= j < i ==> !wanted(#[trigger] self@.uri.parameters[j]),
            decreases self.uri.parameters.len() - i,
        {
            match &self.uri.parameters[i] {
                UriParam::Branch(branch) => {
                    proof {
                        assert(wanted(self@.uri.parameters[i as int]));
                        lemma_first_index_is(self@.uri.parameters, wanted, i as int);
                    }
                    return Some(branch);
                },
                _ => {},
            }
            i += 1;
        }
        proof {
            lemma_first_index(self@.uri.parameters, wanted);
        }
        None
    }
}

/// The value of a `Subscription-State` header.
#[derive(Debug)]
pub enum SubscriptionState {
    Active { expires: Option<u32>, parameters: Vec<(String, Option<String>)> },
    Pending { expires: Option<u32>, parameters: Vec<(String, Option<String>)> },
    Terminated {
        retry_after: Option<u32>,
        reason: Option<String>,
        parameters: Vec<(String, Option<String>)>,
    },
    Other { state: String, parameters: Vec<(String, Option<String>)> },
}

/// The mathematical value of a [`SubscriptionState`].
pub enum SubscriptionStateView {
    Active { expires: Option<u32>, parameters: ParametersView },
    Pending { expires: Option<u32>, parameters: ParametersView },
    Terminated { retry_after: Option<u32>, reason: Option<Seq<char>>, parameters: ParametersView },
    Other { state: Seq<char>, parameters: ParametersView },
}

impl View for SubscriptionState {
    type V = SubscriptionStateView;

    open spec fn view(&self) -> SubscriptionStateView {
        match self {
            SubscriptionState::Active { expires, parameters } => SubscriptionStateView::Active {
                expires: *expires,
                parameters: parameters.deep_view(),
            },
            SubscriptionState::Pending { expires, parameters } => SubscriptionStateView::Pending {
                expires: *expires,
                parameters: parameters.deep_view(),
            },
            SubscriptionState::Terminated {
                retry_after,
                reason,
                parameters,
            } => SubscriptionStateView::Terminated {
                retry_after: *retry_after,
                reason: reason.deep_view(),
                parameters: parameters.deep_view(),
            },
            SubscriptionState::Other { state, parameters } => SubscriptionStateView::Other {
                state: state@,
                parameters: parameters.deep_view(),
            },
        }
    }
}

impl DeepView for SubscriptionState {
    type V = SubscriptionStateView;

    open spec fn deep_view(&self) -> SubscriptionStateView {
        self@
    }
}

impl SubscriptionStateView {
    /// An active subscription that lasts `seconds` seconds.
    pub open spec fn active_for(seconds: u32) -> SubscriptionStateView {
        SubscriptionStateView::Active { expires: Some(seconds), parameters: Seq::empty() }
    }

    /// The parameters of the state besides those that it names.
    pub open spec fn parameters(self) -> ParametersView {
        match self {
            SubscriptionStateView::Active { parameters, .. } => parameters,
            SubscriptionStateView::Pending { parameters, .. } => parameters,
            SubscriptionStateView::Terminated { parameters, .. } => parameters,
            SubscriptionStateView::Other { parameters, .. } => parameters,
        }
    }

    /// Each parameter of the state stands once: no name occurs twice.
    pub open spec fn well_formed(self) -> bool {
        distinct_names(self.parameters())
    }
}

impl Clone for SubscriptionState {
    fn clone(&self) -> (r: Self)
        ensures
            r@ == self@,
    {
        match self {
            SubscriptionState::Active { expires, parameters } => SubscriptionState::Active {
                expires: *expires,
                parameters: clone_params(parameters),
            },
            SubscriptionState::Pending { expires, parameters } => SubscriptionState::Pending {
                expires: *expires,
                parameters: clone_params(parameters),
            },
            SubscriptionState::Terminated {
                retry_after,
                reason,
                parameters,
            } => SubscriptionState::Terminated {
                retry_after: *retry_after,
                reason: clone_text(reason),
                parameters: clone_params(parameters),
            },
            SubscriptionState::Other { state, parameters } => SubscriptionState::Other {
                state: state.clone(),
                parameters: clone_params(parameters),
            },
        }
    }
}

impl SubscriptionState {
    /// An active subscription that lasts `seconds` seconds.
    pub fn active_for(seconds: u32) -> (r: Self)
        ensures
            r@ == SubscriptionStateView::active_for(seconds),
            r@.well_formed(),
    {
        let r = SubscriptionState::Active { expires: Some(seconds), parameters: Vec::new() };
        assert(r@->Active_parameters =~= Seq::empty());
        r
    }
}

/// A header of a message. The headers that the server does not read are
/// kept as their name and their value.
#[derive(Debug)]
pub enum Header {
    To(NamedHeader),
    Contact(NamedHeader),
    From(NamedHeader),
    CSeq(u32, Method),
    MaxForwards(u32),
    Event(String),
    Expires(u32),
    ContentLength(u32),
    CallId(String),
    SubscriptionState(SubscriptionState),
    Via(ViaHeader),
    Other(String, String),
}

/// The mathematical value of a [`Header`].
pub enum HeaderView {
    To(NamedHeaderView),
    Contact(NamedHeaderView),
    From(NamedHeaderView),
    CSeq(u32, Method),
    MaxForwards(u32),
    Event(Seq<char>),
    Expires(u32),
    ContentLength(u32),
    CallId(Seq<char>),
    SubscriptionState(SubscriptionStateView),
    Via(ViaHeaderView),
    Other(Seq<char>, Seq<char>),
}

/// Which header a header is.
#[derive(Clone, Copy, Debug, PartialEq, Eq, Structural)]
pub enum HeaderKind {
    To,
    Contact,
    From,
    CSeq,
    MaxForwards,
    Event,
    Expires,
    ContentLength,
    CallId,
    SubscriptionState,
    Via,
    Other,
}

impl View for Header {
    type V = HeaderView;

    open spec fn view(&self) -> HeaderView {
        match self {
            Header::To(h) => HeaderView::To(h@),
            Header::Contact(h) => HeaderView::Contact(h@),
            Header::From(h) => HeaderView::From(h@),
            Header::CSeq(n, m) => HeaderView::CSeq(*n, *m),
            Header::MaxForwards(n) => HeaderView::MaxForwards(*n),
            Header::Event(e) => HeaderView::Event(e@),
            Header::Expires(n) => HeaderView::Expires(*n),
            Header::ContentLength(n) => HeaderView::ContentLength(*n),
            Header::CallId(c) => HeaderView::CallId(c@),
            Header::SubscriptionState(s) => HeaderView::SubscriptionState(s@),
            Header::Via(v) => HeaderView::Via(v@),
            Header::Other(name, value) => HeaderView::Other(name@, value@),
        }
    }
}

impl DeepView for Header {
    type V = HeaderView;

    open spec fn deep_view(&self) -> HeaderView {
        self@
    }
}

impl HeaderView {
    /// Each parameter of the header stands once: in a list of parameters
    /// that the header holds, no name occurs twice.
    pub open spec fn well_formed(self) -> bool {
        match self {
            HeaderView::To(h) => h.well_formed(),
            HeaderView::Contact(h) => h.well_formed(),
            HeaderView::From(h) => h.well_formed(),
            HeaderView::SubscriptionState(s) => s.well_formed(),
            _ => true,
        }
    }

    /// Which header this is.
    pub open spec fn kind(self) -> HeaderKind {
        match self {
            HeaderView::To(_) => HeaderKind::To,
            HeaderView::Contact(_) => HeaderKind::Contact,
            HeaderView::From(_) => HeaderKind::From,
            HeaderView::CSeq(_, _) => HeaderKind::CSeq,
            HeaderView::MaxForwards(_) => HeaderKind::MaxForwards,
            HeaderView::Event(_) => HeaderKind::Event,
            HeaderView::Expires(_) => HeaderKind::Expires,
            HeaderView::ContentLength(_) => HeaderKind::ContentLength,
            HeaderView::CallId(_) => HeaderKind::CallId,
            HeaderView::SubscriptionState(_) => HeaderKind::SubscriptionState,
            HeaderView::Via(_) => HeaderKind::Via,
            HeaderView::Other(_, _) => HeaderKind::Other,
        }
    }
}

/// The headers of this kind.
pub open spec fn is_kind(kind: HeaderKind) -> spec_fn(HeaderView) -> bool {
    |h: HeaderView| h.kind() == kind
}

impl Clone for Header {
    fn clone(&self) -> (r: Self)
        ensures
            r@ == self@,
    {
        match self {
            Header::To(h) => Header::To(h.clone()),
            Header::Contact(h) => Header::Contact(h.clone()),
            Header::From(h) => Header::From(h.clone()),
            Header::CSeq(n, m) => Header::CSeq(*n, *m),
            Header::MaxForwards(n) => Header::MaxForwards(*n),
            Header::Event(e) => Header::Event(e.clone()),
            Header::Expires(n) => Header::Expires(*n),
            Header::ContentLength(n) => Header::ContentLength(*n),
            Header::CallId(c) => Header::CallId(c.clone()),
            Header::SubscriptionState(s) => Header::SubscriptionState(s.clone()),
            Header::Via(v) => Header::Via(v.clone()),
            Header::Other(name, value) => Header::Other(name.clone(), value.clone()),
        }
    }
}

impl Header {
    /// Which header this is.
    pub fn kind(&self) -> (r: HeaderKind)
        ensures
            r == self@.kind(),
    {
        match self {
            Header::To(_) => HeaderKind::To,
            Header::Contact(_) => HeaderKind::Contact,
            Header::From(_) => HeaderKind::From,
            Header::CSeq(_, _) => HeaderKind::CSeq,
            Header::MaxForwards(_) => HeaderKind::MaxForwards,
            Header::Event(_) => HeaderKind::Event,
            Header::Expires(_) => HeaderKind::Expires,
            Header::ContentLength(_) => HeaderKind::ContentLength,
            Header::CallId(_) => HeaderKind::CallId,
            Header::SubscriptionState(_) => HeaderKind::SubscriptionState,
            Header::Via(_) => HeaderKind::Via,
            Header::Other(_, _) => HeaderKind::Other,
        }
    }
}

/// The place of the first header of a kind.
pub(crate) fn find_header(headers: &Vec<Header>, kind: HeaderKind) -> (r: Option<usize>)
    ensures
        r matches Some(i) ==> first_index(headers.deep_view(), is_kind(kind)) == Some(i as int),
        r is None ==> first_index(headers.deep_view(), is_kind(kind)) is None,
{
    let ghost wanted = is_kind(kind);
    let mut i: usize = 0;
    while i < headers.len()
        invariant
            i <= headers.len(),
            wanted == is_kind(kind),
            forall|j: int| 0 <= j < i ==> !wanted(#[trigger] headers.deep_view()[j]),
        decreases headers.len() - i,
    {
        if headers[i].kind() == kind {
            proof {
                assert(wanted(headers.deep_view()[i as int]));
                lemma_first_index_is(headers.deep_view(), wanted, i as int);
            }
            return Some(i);
        }
        i += 1;
    }
    proof {
        lemma_first_index(headers.deep_view(), wanted);
    }
    None
}

/// A copy of a list of headers.
pub(crate) fn clone_headers(headers: &Vec<Header>) -> (r: Vec<Header>)
    ensures
        r.deep_view() == headers.deep_view(),
{
    let mut out: Vec<Header> = Vec::new();
    let mut i: usize = 0;
    while i < headers.len()
        invariant
            i <= headers.len(),
            out.len() == i,
            forall|j: int| 0 <= j < i ==> out[j]@ == headers[j]@,
        decreases headers.len() - i,
    {
        out.push(headers[i].clone());
        i += 1;
    }
    assert(out.deep_view() =~= headers.deep_view());
    out
}

} // verus!
