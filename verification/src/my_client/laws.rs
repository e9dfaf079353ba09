//! What holds of every message that a client handles.

use vstd::prelude::*;
use crate::client::{events_well_formed, ClientEventView};
use crate::components::dialogs::{
    has_id, is_dialog, is_incomplete, lemma_added_wf, lemma_answered_wf, DialogInfoView,
    DialogView, DialogsView, IncompleteDialogInfoView,
};
use crate::my_client::model::{
    dialogs_after_response, echo, echoed_headers, local_tag, translated_request,
    translated_response, FreshIdsView, MyClientView, Routed, SharedView,
};
use crate::peer_address::PeerAddress;
use crate::search::{is_first, lemma_first_index, lemma_first_index_is};
use crate::sip::headers::{lemma_params_with, lemma_params_with_distinct, HeaderKind, HeaderView};
use crate::sip::message::{
    lemma_header_well_formed, lemma_identifiers_well_formed, lemma_replaced_well_formed,
    lemma_with_dialog, SipMessageView,
};
use crate::via_branch_generator::branch_text;

verus! {

/// What a response echoes holds no `Contact` and no `Content-Length`; each
/// `To` in it carries the server's tag; and each header of the request but
/// `Contact` and `Content-Length` is in it, a `To` header with the server's
/// tag, any other as it was.
pub proof fn lemma_echoed_headers(headers: Seq<HeaderView>)
    ensures
        forall|j: int|
            0 <= j < echoed_headers(headers).len() ==> {
                &&& (#[trigger] echoed_headers(headers)[j]).kind() != HeaderKind::Contact
                &&& echoed_headers(headers)[j].kind() != HeaderKind::ContentLength
                &&& echoed_headers(headers)[j] matches HeaderView::To(to) ==> to.tag() == Some(
                    local_tag(),
                )
            },
        forall|i: int|
            0 <= i < headers.len() ==> (echo(#[trigger] headers[i]) matches Some(echoed)
                ==> echoed_headers(headers).contains(echoed)),
    decreases headers.len(),
{
    if headers.len() > 0 {
        let front = headers.drop_last();
        let last = headers.last();
        lemma_echoed_headers(front);
        let echoed = echoed_headers(headers);
        let before = echoed_headers(front);
        assert(echoed == match echo(last) {
            Some(e) => before + seq![e],
            None => before,
        });
        match last {
            HeaderView::To(to) => {
                lemma_params_with(to.parameters, "tag"@, Some(local_tag()), "tag"@);
            },
            _ => {},
        }
        assert forall|j: int| 0 <= j < echoed.len() implies {
            &&& (#[trigger] echoed[j]).kind() != HeaderKind::Contact
            &&& echoed[j].kind() != HeaderKind::ContentLength
            &&& echoed[j] matches HeaderView::To(to) ==> to.tag() == Some(local_tag())
        } by {
            if j < before.len() {
                assert(echoed[j] == before[j]);
            } else {
                assert(echoed[j] == echo(last).unwrap());
            }
        }
        assert forall|i: int| 0 <= i < headers.len() implies (echo(
            #[trigger] headers[i],
        ) matches Some(e) ==> echoed.contains(e)) by {
            if echo(headers[i]) is Some {
                if i < front.len() {
                    assert(front[i] == headers[i]);
                    let k = choose|k: int|
                        0 <= k < before.len() && before[k] == echo(headers[i]).unwrap();
                    assert(echoed[k] == before[k]);
                } else {
                    assert(echoed[before.len() as int] == echo(last).unwrap());
                }
            }
        }
    }
}

/// Of every response that the server builds from a request: each header of
/// the request but `Contact` and `Content-Length` appears in it, a `To`
/// header with the server's tag and any other as it was; each `To` in it
/// has a tag; and it has one `Contact`, the server's, and one
/// `Content-Length`, which says zero.
pub proof fn lemma_response_headers(client: MyClientView, req: SipMessageView, code: u32)
    ensures
        ({
            let response = client.response(req, code).headers();
            let n = response.len() as int;
            &&& response == client.response_headers(req.headers())
            &&& n >= 2
            &&& response[n - 2] == HeaderView::Contact(client.contact())
            &&& response[n - 1] == HeaderView::ContentLength(0)
            &&& forall|j: int|
                0 <= j < n - 2 ==> (#[trigger] response[j]).kind() != HeaderKind::Contact
                    && response[j].kind() != HeaderKind::ContentLength
            &&& forall|j: int|
                0 <= j < n ==> ((#[trigger] response[j]) matches HeaderView::To(to) ==> to.tag()
                    == Some(local_tag()))
            &&& forall|i: int|
                0 <= i < req.headers().len() ==> (#[trigger] req.headers()[i]).kind()
                    != HeaderKind::Contact && req.headers()[i].kind() != HeaderKind::ContentLength
                    ==> echo(req.headers()[i]) is Some && response.contains(
                    echo(req.headers()[i]).unwrap(),
                )
        }),
{
    let headers = req.headers();
    let echoed = echoed_headers(headers);
    let response = client.response(req, code).headers();
    lemma_echoed_headers(headers);
    assert forall|j: int| 0 <= j < echoed.len() implies #[trigger] response[j] == echoed[j] by {}
    assert forall|i: int|
        0 <= i < headers.len() && (#[trigger] headers[i]).kind() != HeaderKind::Contact
            && headers[i].kind() != HeaderKind::ContentLength implies echo(headers[i]) is Some
        && response.contains(echo(headers[i]).unwrap()) by {
        let k = choose|k: int| 0 <= k < echoed.len() && echoed[k] == echo(headers[i]).unwrap();
        assert(response[k] == echoed[k]);
    }
}

/// A `REGISTER` that asks for no time, for a user who is not registered,
/// changes nothing, and is answered with success and the time zero.
pub proof fn lemma_unregister_unknown_user(
    client: MyClientView,
    msg: SipMessageView,
    registrations: Map<Seq<char>, PeerAddress>,
)
    requires
        msg.to_header_username() matches Some(user) && !registrations.contains_key(user),
        msg.expires() == Some(0u32),
    ensures
        client.registered(msg, registrations) == registrations,
        client.register_events(msg) == seq![
            ClientEventView::Send(client.response_with(msg, 200, HeaderView::Expires(0))),
        ],
{
    let user = msg.to_header_username().unwrap();
    assert(registrations.remove(user) =~= registrations);
}

/// A request inside a dialog to which no dialog is linked is passed on as
/// it is, and the table of dialogs stays as it is.
pub proof fn lemma_unlinked_request_unchanged(
    client: MyClientView,
    msg: SipMessageView,
    registrations: Map<Seq<char>, PeerAddress>,
    dialogs: DialogsView,
    fresh: Option<FreshIdsView>,
)
    requires
        msg.call_id() is Some,
        msg.from_header_tag() is Some,
        msg.to_header_tag() is Some,
        dialogs.linked(
            msg.call_id().unwrap(),
            msg.to_header_tag().unwrap(),
            msg.from_header_tag().unwrap(),
        ) is None,
    ensures
        translated_request(msg, dialogs, fresh) == Some((msg, dialogs)),
        client.back_to_back && msg.via_header_branch() is Some && (
        msg.to_header_username() matches Some(callee) && registrations.contains_key(callee))
            ==> client.route_request(msg, registrations, dialogs, fresh) == (Routed {
            events: seq![
                ClientEventView::Route {
                    addr: registrations[msg.to_header_username().unwrap()],
                    msg,
                },
            ],
            dialogs,
        }),
{
}

/// The two dialogs that a request which opens a dialog leaves in the
/// table, once the other leg has answered with the tag `peer_tag`: the
/// caller's, and the one of the other leg.
pub open spec fn spliced(
    dialogs: DialogsView,
    call_id: Seq<char>,
    client_tag: Seq<char>,
    fresh: FreshIdsView,
    peer_tag: Seq<char>,
) -> DialogsView {
    dialogs.added(
        DialogInfoView { call_id, server_tag: fresh.incoming_server_tag, client_tag },
        IncompleteDialogInfoView { call_id: fresh.new_call_id, server_tag: fresh.new_server_tag },
    ).answered(fresh.new_call_id, fresh.new_server_tag, peer_tag)
}

/// What is in the table after a dialog was opened and the other leg
/// answered, where the new identifiers are new indeed: the old dialogs,
/// then the caller's dialog and the dialog of the other leg, linked to one
/// another.
pub proof fn lemma_spliced(
    dialogs: DialogsView,
    call_id: Seq<char>,
    client_tag: Seq<char>,
    fresh: FreshIdsView,
    peer_tag: Seq<char>,
)
    requires
        dialogs.wf(),
        dialogs.next_id + 2 <= u32::MAX,
        dialogs.incomplete_index(fresh.new_call_id, fresh.new_server_tag) is None,
    ensures
        ({
            let table = spliced(dialogs, call_id, client_tag, fresh, peer_tag);
            let n = dialogs.dialogs.len() as int;
            &&& table.wf()
            &&& table.incomplete == dialogs.incomplete
            &&& table.dialogs.len() == n + 2
            &&& table.dialogs.subrange(0, n) == dialogs.dialogs
            &&& table.dialogs[n] == (DialogView {
                id: dialogs.next_id,
                call_id,
                server_tag: fresh.incoming_server_tag,
                client_tag,
                linked_dialog: (dialogs.next_id + 1) as u32,
            })
            &&& table.dialogs[n + 1] == (DialogView {
                id: (dialogs.next_id + 1) as u32,
                call_id: fresh.new_call_id,
                server_tag: fresh.new_server_tag,
                client_tag: peer_tag,
                linked_dialog: dialogs.next_id,
            })
        }),
{
    let info = DialogInfoView { call_id, server_tag: fresh.incoming_server_tag, client_tag };
    let leg = IncompleteDialogInfoView {
        call_id: fresh.new_call_id,
        server_tag: fresh.new_server_tag,
    };
    let opened = dialogs.added(info, leg);
    let wanted = is_incomplete(fresh.new_call_id, fresh.new_server_tag);
    let m = dialogs.incomplete.len() as int;
    lemma_first_index(dialogs.incomplete, wanted);
    assert(is_first(opened.incomplete, wanted, m)) by {
        assert(wanted(opened.incomplete[m]));
        assert forall|j: int| 0 <= j < m implies !wanted(#[trigger] opened.incomplete[j]) by {
            assert(!wanted(dialogs.incomplete[j]));
        }
    }
    lemma_first_index_is(opened.incomplete, wanted, m);
    lemma_added_wf(dialogs, info, leg);
    lemma_answered_wf(
        opened,
        fresh.new_call_id,
        fresh.new_server_tag,
        peer_tag,
    );
    let table = spliced(dialogs, call_id, client_tag, fresh, peer_tag);
    assert(table.incomplete =~= dialogs.incomplete);
    assert(table.dialogs.subrange(0, dialogs.dialogs.len() as int) =~= dialogs.dialogs);
}

/// Request translation followed by response translation on the other leg
/// gives the caller back the dialog that the caller knows.
///
/// A request opens a dialog: it has a call identifier and a tag in `From`,
/// and no tag in `To`. It goes out under the new identifiers. The response
/// of the other leg carries those and the tag of the callee. Translated, the
/// response carries the caller's call identifier, the caller's tag in
/// `From`, and in `To` the tag that the server chose for the caller's leg.
/// The new identifiers are taken to be new: no leg waits under them, no
/// dialog is established under them, and the caller's dialog is not the
/// very dialog of the other leg (the new call identifier, the new tag of
/// the server and the tag of the callee).
pub proof fn lemma_round_trip(
    request: SipMessageView,
    response: SipMessageView,
    dialogs: DialogsView,
    fresh: FreshIdsView,
)
    requires
        dialogs.wf(),
        dialogs.next_id + 2 <= u32::MAX,
        request.call_id() is Some,
        request.from_header_tag() is Some,
        request.to_header_tag() is None,
        response.call_id() == Some(fresh.new_call_id),
        response.from_header_tag() == Some(fresh.new_server_tag),
        response.to_header_tag() is Some,
        dialogs.incomplete_index(fresh.new_call_id, fresh.new_server_tag) is None,
        dialogs.dialog_index(
            fresh.new_call_id,
            fresh.new_server_tag,
            response.to_header_tag().unwrap(),
        ) is None,
        !({
            &&& request.call_id().unwrap() == fresh.new_call_id
            &&& fresh.incoming_server_tag == fresh.new_server_tag
            &&& request.from_header_tag().unwrap() == response.to_header_tag().unwrap()
        }),
    ensures
        ({
            let sent = translated_request(request, dialogs, Some(fresh));
            let table = sent.unwrap().1;
            let back = translated_response(response, table);
            &&& sent is Some
            &&& back is Some
            &&& back.unwrap().call_id() == request.call_id()
            &&& back.unwrap().from_header_tag() == request.from_header_tag()
            &&& back.unwrap().to_header_tag() == Some(fresh.incoming_server_tag)
            &&& dialogs_after_response(response, table) == spliced(
                dialogs,
                request.call_id().unwrap(),
                request.from_header_tag().unwrap(),
                fresh,
                response.to_header_tag().unwrap(),
            )
        }),
{
    let call_id = request.call_id().unwrap();
    let client_tag = request.from_header_tag().unwrap();
    let peer_tag = response.to_header_tag().unwrap();
    let table = spliced(dialogs, call_id, client_tag, fresh, peer_tag);
    let n = dialogs.dialogs.len() as int;
    lemma_spliced(dialogs, call_id, client_tag, fresh, peer_tag);
    // The response names the dialog of the other leg, the last in the table.
    let wanted = is_dialog(fresh.new_call_id, fresh.new_server_tag, peer_tag);
    lemma_first_index(dialogs.dialogs, wanted);
    assert(is_first(table.dialogs, wanted, n + 1)) by {
        assert(wanted(table.dialogs[n + 1]));
        assert forall|j: int| 0 <= j < n + 1 implies !wanted(#[trigger] table.dialogs[j]) by {
            if j < n {
                assert(table.dialogs[j] == table.dialogs.subrange(0, n)[j]);
                assert(!wanted(dialogs.dialogs[j]));
            }
        }
    }
    lemma_first_index_is(table.dialogs, wanted, n + 1);
    // That dialog is linked to the caller's, the one before it.
    let by_id = has_id(dialogs.next_id);
    assert(is_first(table.dialogs, by_id, n)) by {
        assert(by_id(table.dialogs[n]));
        assert forall|j: int| 0 <= j < n implies !by_id(#[trigger] table.dialogs[j]) by {
            assert(table.dialogs[j] == table.dialogs.subrange(0, n)[j]);
            assert(dialogs.dialogs[j].id < dialogs.next_id);
        }
    }
    lemma_first_index_is(table.dialogs, by_id, n);
    lemma_with_dialog(
        response,
        call_id,
        client_tag,
        fresh.incoming_server_tag,
        HeaderKind::Via,
    );
}

/// Once a call is spliced, a request of the caller inside the caller's
/// dialog goes out with the identifiers of the other leg: the new call
/// identifier, the server's tag of that leg in `From`, the callee's tag in
/// `To`. The tag that the server chose for the caller's leg is taken to be
/// new: no dialog was established under it before.
pub proof fn lemma_request_in_spliced_dialog(
    request: SipMessageView,
    dialogs: DialogsView,
    call_id: Seq<char>,
    client_tag: Seq<char>,
    fresh: FreshIdsView,
    peer_tag: Seq<char>,
    unused: Option<FreshIdsView>,
)
    requires
        dialogs.wf(),
        dialogs.next_id + 2 <= u32::MAX,
        dialogs.incomplete_index(fresh.new_call_id, fresh.new_server_tag) is None,
        dialogs.dialog_index(call_id, fresh.incoming_server_tag, client_tag) is None,
        request.call_id() == Some(call_id),
        request.from_header_tag() == Some(client_tag),
        request.to_header_tag() == Some(fresh.incoming_server_tag),
    ensures
        ({
            let table = spliced(dialogs, call_id, client_tag, fresh, peer_tag);
            let sent = translated_request(request, table, unused);
            &&& sent is Some
            &&& sent.unwrap().1 == table
            &&& sent.unwrap().0.call_id() == Some(fresh.new_call_id)
            &&& sent.unwrap().0.from_header_tag() == Some(fresh.new_server_tag)
            &&& sent.unwrap().0.to_header_tag() == Some(peer_tag)
        }),
{
    let table = spliced(dialogs, call_id, client_tag, fresh, peer_tag);
    let n = dialogs.dialogs.len() as int;
    lemma_spliced(dialogs, call_id, client_tag, fresh, peer_tag);
    let wanted = is_dialog(call_id, fresh.incoming_server_tag, client_tag);
    lemma_first_index(dialogs.dialogs, wanted);
    assert(is_first(table.dialogs, wanted, n)) by {
        assert(wanted(table.dialogs[n]));
        assert forall|j: int| 0 <= j < n implies !wanted(#[trigger] table.dialogs[j]) by {
            assert(table.dialogs[j] == table.dialogs.subrange(0, n)[j]);
            assert(!wanted(dialogs.dialogs[j]));
        }
    }
    lemma_first_index_is(table.dialogs, wanted, n);
    let by_id = has_id((dialogs.next_id + 1) as u32);
    assert(is_first(table.dialogs, by_id, n + 1)) by {
        assert(by_id(table.dialogs[n + 1]));
        assert forall|j: int| 0 <= j < n + 1 implies !by_id(#[trigger] table.dialogs[j]) by {
            if j < n {
                assert(table.dialogs[j] == table.dialogs.subrange(0, n)[j]);
                assert(dialogs.dialogs[j].id < dialogs.next_id);
            }
        }
    }
    lemma_first_index_is(table.dialogs, by_id, n + 1);
    lemma_with_dialog(
        request,
        fresh.new_call_id,
        fresh.new_server_tag,
        peer_tag,
        HeaderKind::Via,
    );
}

/// What a response echoes of well-formed headers is well formed.
pub proof fn lemma_echoed_well_formed(headers: Seq<HeaderView>)
    requires
        forall|i: int| 0 <= i < headers.len() ==> (#[trigger] headers[i]).well_formed(),
    ensures
        forall|j: int|
            0 <= j < echoed_headers(headers).len() ==> (#[trigger] echoed_headers(
                headers,
            )[j]).well_formed(),
    decreases headers.len(),
{
    if headers.len() > 0 {
        let front = headers.drop_last();
        let last = headers.last();
        assert forall|i: int| 0 <= i < front.len() implies (#[trigger] front[i]).well_formed() by {
            assert(front[i] == headers[i]);
        }
        lemma_echoed_well_formed(front);
        let echoed = echoed_headers(headers);
        let before = echoed_headers(front);
        assert(echoed == match echo(last) {
            Some(e) => before + seq![e],
            None => before,
        });
        assert(last.well_formed());
        match last {
            HeaderView::To(to) => {
                lemma_params_with_distinct(to.parameters, "tag"@, Some(local_tag()));
            },
            _ => {},
        }
        assert forall|j: int| 0 <= j < echoed.len() implies (#[trigger] echoed[j]).well_formed() by {
            if j < before.len() {
                assert(echoed[j] == before[j]);
            } else {
                assert(echoed[j] == echo(last).unwrap());
            }
        }
    }
}

/// The responses of the server to a well-formed request are well formed.
pub proof fn lemma_response_well_formed(
    client: MyClientView,
    req: SipMessageView,
    code: u32,
    extra: HeaderView,
)
    requires
        req.well_formed(),
    ensures
        client.response(req, code).well_formed(),
        extra.well_formed() ==> client.response_with(req, code, extra).well_formed(),
{
    let echoed = echoed_headers(req.headers());
    lemma_echoed_well_formed(req.headers());
    let headers = client.response(req, code).headers();
    assert forall|j: int| 0 <= j < headers.len() implies (#[trigger] headers[j]).well_formed() by {
        if j < echoed.len() {
            assert(headers[j] == echoed[j]);
        }
    }
    if extra.well_formed() {
        let more = client.response_with(req, code, extra).headers();
        assert forall|j: int| 0 <= j < more.len() implies (#[trigger] more[j]).well_formed() by {
            if j < headers.len() {
                assert(more[j] == headers[j]);
            }
        }
    }
}

/// The notification that follows a well-formed subscription is well
/// formed.
pub proof fn lemma_notify_well_formed(client: MyClientView, msg: SipMessageView, branch: Seq<char>)
    requires
        msg.well_formed(),
    ensures
        client.notify(msg, branch) matches Some(notify) ==> notify.well_formed(),
{
    lemma_header_well_formed(msg, HeaderKind::From);
    lemma_header_well_formed(msg, HeaderKind::To);
    match msg.to_header() {
        Some(to) => {
            lemma_params_with_distinct(to.parameters, "tag"@, Some(local_tag()));
        },
        None => {},
    }
}

/// A well-formed message that was given the identifiers of the other leg
/// is well formed.
pub proof fn lemma_translated_well_formed(
    msg: SipMessageView,
    dialogs: DialogsView,
    fresh: Option<FreshIdsView>,
)
    requires
        msg.well_formed(),
    ensures
        translated_request(msg, dialogs, fresh) matches Some((out, _)) ==> out.well_formed(),
        translated_response(msg, dialogs) matches Some(out) ==> out.well_formed(),
{
    match translated_request(msg, dialogs, fresh) {
        Some((out, _)) => {
            match msg.to_header_tag() {
                Some(server_tag) => {
                    match dialogs.linked(
                        msg.call_id().unwrap(),
                        server_tag,
                        msg.from_header_tag().unwrap(),
                    ) {
                        Some(other) => {
                            let m1 = msg.with_call_id(other.call_id);
                            let m2 = m1.with_from_header_tag(other.server_tag);
                            lemma_identifiers_well_formed(msg, other.call_id);
                            lemma_identifiers_well_formed(m1, other.server_tag);
                            lemma_identifiers_well_formed(m2, other.client_tag);
                        },
                        None => {},
                    }
                },
                None => {
                    let m1 = msg.with_from_header_tag(fresh.unwrap().new_server_tag);
                    lemma_identifiers_well_formed(msg, fresh.unwrap().new_server_tag);
                    lemma_identifiers_well_formed(m1, fresh.unwrap().new_call_id);
                },
            }
        },
        None => {},
    }
    match translated_response(msg, dialogs) {
        Some(out) => {
            let other = dialogs.answered(
                msg.call_id().unwrap(),
                msg.from_header_tag().unwrap(),
                msg.to_header_tag().unwrap(),
            ).linked(
                msg.call_id().unwrap(),
                msg.from_header_tag().unwrap(),
                msg.to_header_tag().unwrap(),
            ).unwrap();
            let m1 = msg.with_call_id(other.call_id);
            let m2 = m1.with_from_header_tag(other.client_tag);
            lemma_identifiers_well_formed(msg, other.call_id);
            lemma_identifiers_well_formed(m1, other.client_tag);
            lemma_identifiers_well_formed(m2, other.server_tag);
        },
        None => {},
    }
}

/// Whatever a client makes of a well-formed message, each message that it
/// sends or routes is well formed: no parameter of a header stands twice.
pub proof fn lemma_events_well_formed(
    client: MyClientView,
    msg: SipMessageView,
    shared: SharedView,
    fresh: Option<FreshIdsView>,
)
    requires
        msg.well_formed(),
    ensures
        events_well_formed(client.on_msg(msg, shared, fresh).events),
        events_well_formed(client.on_routed_msg(msg, shared.dialogs).events),
{
    lemma_response_well_formed(client, msg, 200, HeaderView::Expires(0));
    lemma_response_well_formed(client, msg, 400, HeaderView::Expires(0));
    lemma_response_well_formed(client, msg, 404, HeaderView::Expires(0));
    match msg.expires() {
        Some(expires) => {
            lemma_response_well_formed(client, msg, 200, HeaderView::Expires(expires));
        },
        None => {},
    }
    lemma_notify_well_formed(client, msg, branch_text(shared.branches));
    lemma_translated_well_formed(msg, shared.dialogs, fresh);
    // A routed request gets the server's `Via` and `Contact`.
    match msg.via_header_branch() {
        Some(branch) => {
            let via = HeaderView::Via(client.via(branch));
            let out = msg.with_via_header(client.via(branch));
            lemma_replaced_well_formed(msg, HeaderKind::Via, via);
            lemma_replaced_well_formed(
                out,
                HeaderKind::Contact,
                HeaderView::Contact(client.contact()),
            );
        },
        None => {},
    }
    // A routed response gets the identifiers of this leg and the server's
    // `Contact`.
    match translated_response(msg, shared.dialogs) {
        Some(out) => {
            lemma_replaced_well_formed(
                out,
                HeaderKind::Contact,
                HeaderView::Contact(client.contact()),
            );
        },
        None => {},
    }
}

} // verus!
