//! Messages, and what the server reads from them and writes into them.

use vstd::prelude::*;
use crate::search::{first_index, lemma_first_index, lemma_first_index_same};
use crate::sip::headers::{
    clone_headers, find_header, is_kind, lemma_params_with, lemma_params_with_distinct, set_param,
    Header, HeaderKind, HeaderView, NamedHeader, NamedHeaderView, ViaHeader, ViaHeaderView,
};
use crate::sip::tokens::{Method, Version};
use crate::sip::uri::{Uri, UriView};

verus! {

/// A message of the protocol: a request or a response.
#[derive(Debug)]
pub enum SipMessage {
    Request { method: Method, uri: Uri, version: Version, headers: Vec<Header>, body: Vec<u8> },
    Response { code: u32, version: Version, headers: Vec<Header>, body: Vec<u8> },
}

/// The mathematical value of a [`SipMessage`].
pub enum SipMessageView {
    Request {
        method: Method,
        uri: UriView,
        version: Version,
        headers: Seq<HeaderView>,
        body: Seq<u8>,
    },
    Response { code: u32, version: Version, headers: Seq<HeaderView>, body: Seq<u8> },
}

impl View for SipMessage {
    type V = SipMessageView;

    open spec fn view(&self) -> SipMessageView {
        match self {
            SipMessage::Request { method, uri, version, headers, body } => SipMessageView::Request {
                method: *method,
                uri: uri@,
                version: *version,
                headers: headers.deep_view(),
                body: body@,
            },
            SipMessage::Response { code, version, headers, body } => SipMessageView::Response {
                code: *code,
                version: *version,
                headers: headers.deep_view(),
                body: body@,
            },
        }
    }
}

impl DeepView for SipMessage {
    type V = SipMessageView;

    open spec fn deep_view(&self) -> SipMessageView {
        self@
    }
}

impl SipMessageView {
    /// The headers of the message, in their order.
    pub open spec fn headers(self) -> Seq<HeaderView> {
        match self {
            SipMessageView::Request { headers, .. } => headers,
            SipMessageView::Response { headers, .. } => headers,
        }
    }

    /// The message with other headers.
    pub open spec fn with_headers(self, headers: Seq<HeaderView>) -> SipMessageView {
        match self {
            SipMessageView::Request { method, uri, version, body, .. } => SipMessageView::Request {
                method,
                uri,
                version,
                headers,
                body,
            },
            SipMessageView::Response { code, version, body, .. } => SipMessageView::Response {
                code,
                version,
                headers,
                body,
            },
        }
    }

    /// Each parameter of each header stands once: in no list of parameters
    /// of the message a name occurs twice.
    pub open spec fn well_formed(self) -> bool {
        forall|i: int| 0 <= i < self.headers().len() ==> (#[trigger] self.headers()[i]).well_formed()
    }

    /// Whether the message is a request.
    pub open spec fn is_request(self) -> bool {
        self is Request
    }

    /// The status code of a response.
    pub open spec fn status_code(self) -> Option<u32> {
        match self {
            SipMessageView::Request { .. } => None,
            SipMessageView::Response { code, .. } => Some(code),
        }
    }

    /// The URI that a request is sent to.
    pub open spec fn request_uri(self) -> Option<UriView> {
        match self {
            SipMessageView::Request { uri, .. } => Some(uri),
            SipMessageView::Response { .. } => None,
        }
    }

    /// The place of the first header of a kind.
    pub open spec fn header_index(self, kind: HeaderKind) -> Option<int> {
        first_index(self.headers(), is_kind(kind))
    }

    /// The first header of a kind.
    pub open spec fn header(self, kind: HeaderKind) -> Option<HeaderView> {
        match self.header_index(kind) {
            Some(i) => Some(self.headers()[i]),
            None => None,
        }
    }

    /// The message with `header` in the place of its first header of a
    /// kind; the message itself where it has no such header.
    pub open spec fn replaced(self, kind: HeaderKind, header: HeaderView) -> SipMessageView {
        match self.header_index(kind) {
            Some(i) => self.with_headers(self.headers().update(i, header)),
            None => self,
        }
    }

    /// The value of the first `From` header.
    pub open spec fn from_header(self) -> Option<NamedHeaderView> {
        match self.header(HeaderKind::From) {
            Some(HeaderView::From(h)) => Some(h),
            _ => None,
        }
    }

    /// The value of the first `To` header.
    pub open spec fn to_header(self) -> Option<NamedHeaderView> {
        match self.header(HeaderKind::To) {
            Some(HeaderView::To(h)) => Some(h),
            _ => None,
        }
    }

    /// The value of the first `Contact` header.
    pub open spec fn contact_header(self) -> Option<NamedHeaderView> {
        match self.header(HeaderKind::Contact) {
            Some(HeaderView::Contact(h)) => Some(h),
            _ => None,
        }
    }

    /// The value of the first `Via` header.
    pub open spec fn via_header(self) -> Option<ViaHeaderView> {
        match self.header(HeaderKind::Via) {
            Some(HeaderView::Via(h)) => Some(h),
            _ => None,
        }
    }

    /// The value of the first `Call-ID` header.
    pub open spec fn call_id(self) -> Option<Seq<char>> {
        match self.header(HeaderKind::CallId) {
            Some(HeaderView::CallId(c)) => Some(c),
            _ => None,
        }
    }

    /// The value of the first `CSeq` header.
    pub open spec fn cseq(self) -> Option<(u32, Method)> {
        match self.header(HeaderKind::CSeq) {
            Some(HeaderView::CSeq(n, m)) => Some((n, m)),
            _ => None,
        }
    }

    /// The value of the first `Event` header.
    pub open spec fn event(self) -> Option<Seq<char>> {
        match self.header(HeaderKind::Event) {
            Some(HeaderView::Event(e)) => Some(e),
            _ => None,
        }
    }

    /// The value of the first `Expires` header.
    pub open spec fn expires_header(self) -> Option<u32> {
        match self.header(HeaderKind::Expires) {
            Some(HeaderView::Expires(n)) => Some(n),
            _ => None,
        }
    }

    /// The method of a request, and the method that a response answers: the
    /// one in its `CSeq` header.
    pub open spec fn method(self) -> Option<Method> {
        match self {
            SipMessageView::Request { method, .. } => Some(method),
            SipMessageView::Response { .. } => match self.cseq() {
                Some((_, method)) => Some(method),
                None => None,
            },
        }
    }

    /// The tag of the `From` header.
    pub open spec fn from_header_tag(self) -> Option<Seq<char>> {
        match self.from_header() {
            Some(h) => h.tag(),
            None => None,
        }
    }

    /// The user that the `From` header names.
    pub open spec fn from_header_username(self) -> Option<Seq<char>> {
        match self.from_header() {
            Some(h) => h.username(),
            None => None,
        }
    }

    /// The tag of the `To` header.
    pub open spec fn to_header_tag(self) -> Option<Seq<char>> {
        match self.to_header() {
            Some(h) => h.tag(),
            None => None,
        }
    }

    /// The user that the `To` header names.
    pub open spec fn to_header_username(self) -> Option<Seq<char>> {
        match self.to_header() {
            Some(h) => h.username(),
            None => None,
        }
    }

    /// The branch of the `Via` header.
    pub open spec fn via_header_branch(self) -> Option<Seq<char>> {
        match self.via_header() {
            Some(h) => h.branch(),
            None => None,
        }
    }

    /// The number of seconds in the `expires` parameter of the `Contact`
    /// header.
    pub open spec fn contact_header_expires(self) -> Option<u32> {
        match self.contact_header() {
            Some(h) => h.expires(),
            None => None,
        }
    }

    /// For how many seconds a registration is asked: the `Expires` header;
    /// where the message has no such header, the `expires` parameter of the
    /// `Contact` header.
    pub open spec fn expires(self) -> Option<u32> {
        match self.expires_header() {
            Some(n) => Some(n),
            None => self.contact_header_expires(),
        }
    }

    /// The message with the tag of its `From` header set to `tag`.
    pub open spec fn with_from_header_tag(self, tag: Seq<char>) -> SipMessageView {
        match self.from_header() {
            Some(h) => self.replaced(HeaderKind::From, HeaderView::From(h.with_tag(tag))),
            None => self,
        }
    }

    /// The message with the tag of its `To` header set to `tag`.
    pub open spec fn with_to_header_tag(self, tag: Seq<char>) -> SipMessageView {
        match self.to_header() {
            Some(h) => self.replaced(HeaderKind::To, HeaderView::To(h.with_tag(tag))),
            None => self,
        }
    }

    /// The message with `call_id` in its `Call-ID` header.
    pub open spec fn with_call_id(self, call_id: Seq<char>) -> SipMessageView {
        self.replaced(HeaderKind::CallId, HeaderView::CallId(call_id))
    }

    /// The message with `via` as its `Via` header.
    pub open spec fn with_via_header(self, via: ViaHeaderView) -> SipMessageView {
        self.replaced(HeaderKind::Via, HeaderView::Via(via))
    }

    /// The message with `contact` as its `Contact` header.
    pub open spec fn with_contact_header(self, contact: NamedHeaderView) -> SipMessageView {
        self.replaced(HeaderKind::Contact, HeaderView::Contact(contact))
    }
}

/// A header that takes the place of the first header of its kind is found
/// there, and the first header of every other kind stays what it was. A
/// message without a header of the kind stays as it is.
pub proof fn lemma_replaced(
    msg: SipMessageView,
    kind: HeaderKind,
    header: HeaderView,
    other: HeaderKind,
)
    requires
        header.kind() == kind,
    ensures
        msg.replaced(kind, header).header_index(other) == msg.header_index(other),
        msg.replaced(kind, header).headers().len() == msg.headers().len(),
        msg.replaced(kind, header).header(kind) == if msg.header(kind) is Some {
            Some(header)
        } else {
            None::<HeaderView>
        },
        other != kind ==> msg.replaced(kind, header).header(other) == msg.header(other),
        msg.header(kind) is None ==> msg.replaced(kind, header) == msg,
        msg.replaced(kind, header).is_request() == msg.is_request(),
        msg.replaced(kind, header).status_code() == msg.status_code(),
        msg.replaced(kind, header).request_uri() == msg.request_uri(),
{
    let before = msg.headers();
    let after = msg.replaced(kind, header).headers();
    lemma_first_index(before, is_kind(kind));
    match msg.header_index(kind) {
        Some(i) => {
            assert(after =~= before.update(i, header));
            lemma_first_index_same(after, before, is_kind(kind));
            lemma_first_index_same(after, before, is_kind(other));
            lemma_first_index(before, is_kind(other));
        },
        None => {},
    }
}

/// A message stays well formed where a well-formed header takes the place
/// of one of its headers.
pub proof fn lemma_replaced_well_formed(msg: SipMessageView, kind: HeaderKind, header: HeaderView)
    requires
        msg.well_formed(),
        header.well_formed(),
    ensures
        msg.replaced(kind, header).well_formed(),
{
    let out = msg.replaced(kind, header);
    lemma_first_index(msg.headers(), is_kind(kind));
    match msg.header_index(kind) {
        Some(i) => {
            assert forall|j: int| 0 <= j < out.headers().len() implies (
            #[trigger] out.headers()[j]).well_formed() by {
                if j != i {
                    assert(out.headers()[j] == msg.headers()[j]);
                }
            }
        },
        None => {},
    }
}

/// A message stays well formed where its call identifier or one of its
/// tags is set.
pub proof fn lemma_identifiers_well_formed(msg: SipMessageView, text: Seq<char>)
    requires
        msg.well_formed(),
    ensures
        msg.with_call_id(text).well_formed(),
        msg.with_from_header_tag(text).well_formed(),
        msg.with_to_header_tag(text).well_formed(),
{
    lemma_replaced_well_formed(msg, HeaderKind::CallId, HeaderView::CallId(text));
    lemma_first_index(msg.headers(), is_kind(HeaderKind::From));
    lemma_first_index(msg.headers(), is_kind(HeaderKind::To));
    match msg.from_header() {
        Some(from) => {
            lemma_params_with_distinct(from.parameters, "tag"@, Some(text));
            lemma_replaced_well_formed(
                msg,
                HeaderKind::From,
                HeaderView::From(from.with_tag(text)),
            );
        },
        None => {},
    }
    match msg.to_header() {
        Some(to) => {
            lemma_params_with_distinct(to.parameters, "tag"@, Some(text));
            lemma_replaced_well_formed(msg, HeaderKind::To, HeaderView::To(to.with_tag(text)));
        },
        None => {},
    }
}

/// The headers of a well-formed message are well formed.
pub proof fn lemma_header_well_formed(msg: SipMessageView, kind: HeaderKind)
    requires
        msg.well_formed(),
    ensures
        msg.header(kind) matches Some(h) ==> h.well_formed(),
{
    lemma_first_index(msg.headers(), is_kind(kind));
}

/// The first header of a kind is a header of that kind.
pub proof fn lemma_header_kind(msg: SipMessageView, kind: HeaderKind)
    ensures
        msg.header(kind) matches Some(h) ==> h.kind() == kind,
{
    lemma_first_index(msg.headers(), is_kind(kind));
}

/// A message that was given the identifiers of a dialog carries them, and
/// is otherwise what it was: its kind, its request line or status, the
/// users that `From` and `To` name, and every header but `Call-ID`, `From`
/// and `To`.
pub proof fn lemma_with_dialog(
    msg: SipMessageView,
    call_id: Seq<char>,
    from_tag: Seq<char>,
    to_tag: Seq<char>,
    other: HeaderKind,
)
    requires
        msg.call_id() is Some,
        msg.from_header() is Some,
        msg.to_header() is Some,
    ensures
        ({
            let out = msg.with_call_id(call_id).with_from_header_tag(from_tag).with_to_header_tag(
                to_tag,
            );
            &&& out.call_id() == Some(call_id)
            &&& out.from_header_tag() == Some(from_tag)
            &&& out.to_header_tag() == Some(to_tag)
            &&& out.from_header_username() == msg.from_header_username()
            &&& out.to_header_username() == msg.to_header_username()
            &&& out.is_request() == msg.is_request()
            &&& out.status_code() == msg.status_code()
            &&& out.request_uri() == msg.request_uri()
            &&& other != HeaderKind::CallId && other != HeaderKind::From && other != HeaderKind::To
                ==> out.header(other) == msg.header(other)
        }),
{
    let m1 = msg.with_call_id(call_id);
    lemma_header_kind(msg, HeaderKind::CallId);
    lemma_header_kind(msg, HeaderKind::From);
    lemma_header_kind(msg, HeaderKind::To);
    lemma_replaced(msg, HeaderKind::CallId, HeaderView::CallId(call_id), HeaderKind::From);
    lemma_replaced(msg, HeaderKind::CallId, HeaderView::CallId(call_id), HeaderKind::To);
    lemma_replaced(msg, HeaderKind::CallId, HeaderView::CallId(call_id), other);
    let from = m1.from_header().unwrap();
    let m2 = m1.with_from_header_tag(from_tag);
    let new_from = HeaderView::From(from.with_tag(from_tag));
    lemma_replaced(m1, HeaderKind::From, new_from, HeaderKind::CallId);
    lemma_replaced(m1, HeaderKind::From, new_from, HeaderKind::To);
    lemma_replaced(m1, HeaderKind::From, new_from, other);
    lemma_params_with(from.parameters, "tag"@, Some(from_tag), "tag"@);
    let to = m2.to_header().unwrap();
    let new_to = HeaderView::To(to.with_tag(to_tag));
    lemma_replaced(m2, HeaderKind::To, new_to, HeaderKind::CallId);
    lemma_replaced(m2, HeaderKind::To, new_to, HeaderKind::From);
    lemma_replaced(m2, HeaderKind::To, new_to, other);
    lemma_params_with(to.parameters, "tag"@, Some(to_tag), "tag"@);
}

impl Clone for SipMessage {
    fn clone(&self) -> (r: Self)
        ensures
            r@ == self@,
    {
        match self {
            SipMessage::Request { method, uri, version, headers, body } => SipMessage::Request {
                method: *method,
                uri: uri.clone(),
                version: *version,
                headers: clone_headers(headers),
                body: body.clone(),
            },
            SipMessage::Response { code, version, headers, body } => SipMessage::Response {
                code: *code,
                version: *version,
                headers: clone_headers(headers),
                body: body.clone(),
            },
        }
    }
}

impl SipMessage {
    /// Determine if this is a request.
    pub fn is_request(&self) -> (r: bool)
        ensures
            r == self@.is_request(),
    {
        match self {
            SipMessage::Request { .. } => true,
            SipMessage::Response { .. } => false,
        }
    }

    /// Determine if this is a response.
    pub fn is_response(&self) -> (r: bool)
        ensures
            r == !self@.is_request(),
    {
        !self.is_request()
    }

    /// The status code of a response; nothing for a request.
    pub fn status_code(&self) -> (r: Option<u32>)
        ensures
            r == self@.status_code(),
    {
        match self {
            SipMessage::Request { .. } => None,
            SipMessage::Response { code, .. } => Some(*code),
        }
    }

    /// The URI that a request is sent to; nothing for a response.
    pub fn request_uri(&self) -> (r: Option<&Uri>)
        ensures
            r.deep_view() == self@.request_uri(),
    {
        match self {
            SipMessage::Request { uri, .. } => Some(uri),
            SipMessage::Response { .. } => None,
        }
    }

    /// The headers of the message.
    pub fn headers(&self) -> (r: &Vec<Header>)
        ensures
            r.deep_view() == self@.headers(),
    {
        match self {
            SipMessage::Request { headers, .. } => headers,
            SipMessage::Response { headers, .. } => headers,
        }
    }

    /// The first header of a kind.
    pub fn header(&self, kind: HeaderKind) -> (r: Option<&Header>)
        ensures
            r.deep_view() == self@.header(kind),
    {
        let headers = self.headers();
        match find_header(headers, kind) {
            Some(i) => Some(&headers[i]),
            None => None,
        }
    }

    /// Puts `header` in the place of the header at `i`.
    fn set_header(&mut self, i: usize, header: Header)
        requires
            i < old(self)@.headers().len(),
        ensures
            final(self)@ == old(self)@.with_headers(old(self)@.headers().update(i as int, header@)),
    {
        match self {
            SipMessage::Request { headers, .. } => {
                headers.set(i, header);
            },
            SipMessage::Response { headers, .. } => {
                headers.set(i, header);
            },
        }
        assert(self@.headers() =~= old(self)@.headers().update(i as int, header@));
    }

    /// Puts `header` in the place of the first header of a kind. Returns
    /// whether there was one.
    fn replace_header(&mut self, kind: HeaderKind, header: Header) -> (r: bool)
        ensures
            final(self)@ == old(self)@.replaced(kind, header@),
            r == old(self)@.header(kind).is_some(),
    {
        match find_header(self.headers(), kind) {
            Some(i) => {
                self.set_header(i, header);
                true
            },
            None => false,
        }
    }

    /// The value of the `From` header.
    pub fn from_header(&self) -> (r: Option<&NamedHeader>)
        ensures
            r.deep_view() == self@.from_header(),
    {
        match self.header(HeaderKind::From) {
            Some(Header::From(h)) => Some(h),
            _ => None,
        }
    }

    /// The tag of the `From` header.
    pub fn from_header_tag(&self) -> (r: Option<&String>)
        ensures
            r.deep_view() == self@.from_header_tag(),
    {
        match self.from_header() {
            Some(h) => h.tag(),
            None => None,
        }
    }

    /// Sets the tag of the `From` header, where the message has the header.
    pub fn set_from_header_tag(&mut self, tag: String)
        ensures
            final(self)@ == old(self)@.with_from_header_tag(tag@),
            old(self)@.well_formed() ==> final(self)@.well_formed(),
    {
        proof {
            if old(self)@.well_formed() {
                lemma_identifiers_well_formed(old(self)@, tag@);
            }
        }
        let updated = match self.from_header() {
            Some(h) => {
                let mut h = h.clone();
                set_param(&mut h.parameters, "tag".to_owned(), Some(tag));
                Some(Header::From(h))
            },
            None => None,
        };
        match updated {
            Some(header) => {
                self.replace_header(HeaderKind::From, header);
            },
            None => {},
        }
    }

    /// The user that the `From` header names.
    pub fn from_header_username(&self) -> (r: Option<&String>)
        ensures
            r.deep_view() == self@.from_header_username(),
    {
        match self.from_header() {
            Some(h) => h.username(),
            None => None,
        }
    }

    /// The value of the `To` header.
    pub fn to_header(&self) -> (r: Option<&NamedHeader>)
        ensures
            r.deep_view() == self@.to_header(),
    {
        match self.header(HeaderKind::To) {
            Some(Header::To(h)) => Some(h),
            _ => None,
        }
    }

    /// The tag of the `To` header.
    pub fn to_header_tag(&self) -> (r: Option<&String>)
        ensures
            r.deep_view() == self@.to_header_tag(),
    {
        match self.to_header() {
            Some(h) => h.tag(),
            None => None,
        }
    }

    /// Sets the tag of the `To` header, where the message has the header.
    pub fn set_to_header_tag(&mut self, tag: String)
        ensures
            final(self)@ == old(self)@.with_to_header_tag(tag@),
            old(self)@.well_formed() ==> final(self)@.well_formed(),
    {
        proof {
            if old(self)@.well_formed() {
                lemma_identifiers_well_formed(old(self)@, tag@);
            }
        }
        let updated = match self.to_header() {
            Some(h) => {
                let mut h = h.clone();
                set_param(&mut h.parameters, "tag".to_owned(), Some(tag));
                Some(Header::To(h))
            },
            None => None,
        };
        match updated {
            Some(header) => {
                self.replace_header(HeaderKind::To, header);
            },
            None => {},
        }
    }

    /// The user that the `To` header names.
    pub fn to_header_username(&self) -> (r: Option<&String>)
        ensures
            r.deep_view() == self@.to_header_username(),
    {
        match self.to_header() {
            Some(h) => h.username(),
            None => None,
        }
    }

    /// The value of the `Via` header.
    pub fn via_header(&self) -> (r: Option<&ViaHeader>)
        ensures
            r.deep_view() == self@.via_header(),
    {
        match self.header(HeaderKind::Via) {
            Some(Header::Via(h)) => Some(h),
            _ => None,
        }
    }

    /// Puts `via` in the place of the `Via` header. Returns whether the
    /// message has the header.
    pub fn set_via_header(&mut self, via: ViaHeader) -> (r: bool)
        ensures
            final(self)@ == old(self)@.with_via_header(via@),
            r == old(self)@.via_header().is_some(),
            old(self)@.well_formed() ==> final(self)@.well_formed(),
    {
        proof {
            if old(self)@.well_formed() {
                lemma_replaced_well_formed(old(self)@, HeaderKind::Via, HeaderView::Via(via@));
            }
        }
        self.replace_header(HeaderKind::Via, Header::Via(via))
    }

    /// The branch of the `Via` header.
    pub fn via_header_branch(&self) -> (r: Option<&String>)
        ensures
            r.deep_view() == self@.via_header_branch(),
    {
        match self.via_header() {
            Some(h) => h.branch(),
            None => None,
        }
    }

    /// The value of the `Call-ID` header.
    pub fn call_id(&self) -> (r: Option<&String>)
        ensures
            r.deep_view() == self@.call_id(),
    {
        match self.header(HeaderKind::CallId) {
            Some(Header::CallId(c)) => Some(c),
            _ => None,
        }
    }

    /// Puts `call_id` into the `Call-ID` header. Returns whether the message
    /// has the header.
    pub fn set_call_id(&mut self, call_id: String) -> (r: bool)
        ensures
            final(self)@ == old(self)@.with_call_id(call_id@),
            r == old(self)@.call_id().is_some(),
            old(self)@.well_formed() ==> final(self)@.well_formed(),
    {
        proof {
            if old(self)@.well_formed() {
                lemma_identifiers_well_formed(old(self)@, call_id@);
            }
        }
        self.replace_header(HeaderKind::CallId, Header::CallId(call_id))
    }

    /// The value of the `CSeq` header.
    pub fn cseq(&self) -> (r: Option<(u32, Method)>)
        ensures
            r == self@.cseq(),
    {
        match self.header(HeaderKind::CSeq) {
            Some(Header::CSeq(n, m)) => Some((*n, *m)),
            _ => None,
        }
    }

    /// The method of a request, and the method that a response answers.
    pub fn method(&self) -> (r: Option<Method>)
        ensures
            r == self@.method(),
    {
        match self {
            SipMessage::Request { method, .. } => Some(*method),
            SipMessage::Response { .. } => match self.cseq() {
                Some((_, method)) => Some(method),
                None => None,
            },
        }
    }

    /// The value of the `Event` header.
    pub fn event(&self) -> (r: Option<&String>)
        ensures
            r.deep_view() == self@.event(),
    {
        match self.header(HeaderKind::Event) {
            Some(Header::Event(e)) => Some(e),
            _ => None,
        }
    }

    /// The value of the `Contact` header.
    pub fn contact_header(&self) -> (r: Option<&NamedHeader>)
        ensures
            r.deep_view() == self@.contact_header(),
    {
        match self.header(HeaderKind::Contact) {
            Some(Header::Contact(h)) => Some(h),
            _ => None,
        }
    }

    /// Puts `contact` in the place of the `Contact` header. Returns whether
    /// the message has the header.
    pub fn set_contact_header(&mut self, contact: NamedHeader) -> (r: bool)
        ensures
            final(self)@ == old(self)@.with_contact_header(contact@),
            r == old(self)@.contact_header().is_some(),
            old(self)@.well_formed() && contact@.well_formed() ==> final(self)@.well_formed(),
    {
        proof {
            if old(self)@.well_formed() && contact@.well_formed() {
                lemma_replaced_well_formed(
                    old(self)@,
                    HeaderKind::Contact,
                    HeaderView::Contact(contact@),
                );
            }
        }
        self.replace_header(HeaderKind::Contact, Header::Contact(contact))
    }

    /// Returns number of seconds if it's specified in the `Contact` header.
    pub fn contact_header_expires(&self) -> (r: Option<u32>)
        ensures
            r == self@.contact_header_expires(),
    {
        match self.contact_header() {
            Some(h) => h.expires(),
            None => None,
        }
    }

    /// The value of the `Expires` header.
    pub fn expires_header(&self) -> (r: Option<u32>)
        ensures
            r == self@.expires_header(),
    {
        match self.header(HeaderKind::Expires) {
            Some(Header::Expires(n)) => Some(*n),
            _ => None,
        }
    }

    /// For how many seconds a registration is asked: the `Expires` header;
    /// where the message has no such header, the `expires` parameter of the
    /// `Contact` header.
    pub fn expires(&self) -> (r: Option<u32>)
        ensures
            r == self@.expires(),
    {
        match self.expires_header() {
            Some(n) => Some(n),
            None => self.contact_header_expires(),
        }
    }
}

} // verus!
