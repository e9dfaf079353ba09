//! What holds of the table of dialogs, whatever its uses were.

use vstd::prelude::*;
use crate::components::dialogs::model::{
    has_id, is_dialog, is_incomplete, DialogInfoView, DialogsView, IncompleteDialogInfoView,
    IncompleteDialogView,
};
use crate::search::{first_index, is_first, lemma_first_index, lemma_first_index_is, none_meets};

verus! {

/// Adding two linked dialogs keeps a table well formed.
pub proof fn lemma_added_wf(
    table: DialogsView,
    dialog: DialogInfoView,
    incomplete: IncompleteDialogInfoView,
)
    requires
        table.wf(),
        table.next_id + 2 <= u32::MAX,
    ensures
        table.added(dialog, incomplete).wf(),
{
}

/// Taking an incomplete dialog out keeps a table well formed, and the
/// table admits the dialog back.
pub proof fn lemma_without_incomplete_wf(table: DialogsView, i: int)
    requires
        table.wf(),
        0 <= i < table.incomplete.len(),
    ensures
        table.without_incomplete(i).wf(),
        table.without_incomplete(i).admits(table.incomplete[i]),
{
}

/// Establishing a dialog that the table admits keeps the table well formed.
pub proof fn lemma_completed_wf(
    table: DialogsView,
    incomplete: IncompleteDialogView,
    client_tag: Seq<char>,
)
    requires
        table.wf(),
        table.admits(incomplete),
    ensures
        table.completed(incomplete, client_tag).wf(),
{
}

/// The answer of a leg keeps a table well formed.
pub proof fn lemma_answered_wf(
    table: DialogsView,
    call_id: Seq<char>,
    server_tag: Seq<char>,
    client_tag: Seq<char>,
)
    requires
        table.wf(),
    ensures
        table.answered(call_id, server_tag, client_tag).wf(),
{
    lemma_first_index(table.incomplete, is_incomplete(call_id, server_tag));
    match table.incomplete_index(call_id, server_tag) {
        Some(i) => {
            lemma_without_incomplete_wf(table, i);
            lemma_completed_wf(table.without_incomplete(i), table.incomplete[i], client_tag);
        },
        None => {},
    }
}

/// In a well-formed table whose established dialogs differ in their
/// identifiers, the dialog linked to an established dialog is its partner:
/// the established dialog whose id it is linked to. The partner is another
/// dialog, and is linked back. Nothing is linked as long as the other leg
/// is not established.
pub proof fn lemma_linked_is_partner(table: DialogsView, i: int)
    requires
        table.wf(),
        table.distinct_dialogs(),
        0 <= i < table.dialogs.len(),
    ensures
        ({
            let own = table.dialogs[i];
            let linked = table.linked(own.call_id, own.server_tag, own.client_tag);
            &&& linked == table.by_id(own.linked_dialog)
            &&& linked matches Some(other) ==> {
                &&& other.id == own.linked_dialog
                &&& other.linked_dialog == own.id
                &&& other != own
                &&& table.dialogs.contains(other)
            }
            &&& linked is None <==> forall|j: int|
                0 <= j < table.dialogs.len() ==> (#[trigger] table.dialogs[j]).id
                    != own.linked_dialog
        }),
{
    let own = table.dialogs[i];
    let wanted = is_dialog(own.call_id, own.server_tag, own.client_tag);
    assert(is_first(table.dialogs, wanted, i)) by {
        assert(wanted(table.dialogs[i]));
        assert forall|j: int| 0 <= j < i implies !wanted(#[trigger] table.dialogs[j]) by {}
    }
    lemma_first_index_is(table.dialogs, wanted, i);
    lemma_first_index(table.dialogs, has_id(own.linked_dialog));
    match first_index(table.dialogs, has_id(own.linked_dialog)) {
        Some(k) => {
            assert(has_id(own.linked_dialog)(table.dialogs[k]));
        },
        None => {
            assert forall|j: int| 0 <= j < table.dialogs.len() implies (
            #[trigger] table.dialogs[j]).id != own.linked_dialog by {
                assert(!has_id(own.linked_dialog)(table.dialogs[j]));
            }
        },
    }
    if forall|j: int|
        0 <= j < table.dialogs.len() ==> (#[trigger] table.dialogs[j]).id != own.linked_dialog {
        assert(none_meets(table.dialogs, has_id(own.linked_dialog))) by {
            assert forall|j: int| 0 <= j < table.dialogs.len() implies !has_id(
                own.linked_dialog,
            )(#[trigger] table.dialogs[j]) by {}
        }
    }
}

/// One use of the table.
pub enum DialogsOp {
    /// An established dialog and the incomplete dialog of the other leg are
    /// added.
    Add { dialog: DialogInfoView, incomplete: IncompleteDialogInfoView },
    /// The incomplete dialog with these identifiers, if there is one, is
    /// taken out and held by the caller.
    TakeIncomplete { call_id: Seq<char>, server_tag: Seq<char> },
    /// The dialog that the caller holds at place `held` is put back,
    /// established with the peer's tag.
    Complete { held: int, client_tag: Seq<char> },
}

/// A table in use: what it holds, and the incomplete dialogs that were
/// taken out of it and have not come back.
pub struct DialogsRun {
    pub table: DialogsView,
    pub held: Seq<IncompleteDialogView>,
}

impl DialogsRun {
    /// The empty table, with nothing taken out.
    pub open spec fn start() -> DialogsRun {
        DialogsRun { table: DialogsView::empty(), held: Seq::empty() }
    }

    /// The table after one use. A use that cannot be made (no ids are left
    /// to add with, nothing is held at the place) changes nothing.
    pub open spec fn step(self, op: DialogsOp) -> DialogsRun {
        match op {
            DialogsOp::Add { dialog, incomplete } => if self.table.next_id + 2 <= u32::MAX {
                DialogsRun { table: self.table.added(dialog, incomplete), held: self.held }
            } else {
                self
            },
            DialogsOp::TakeIncomplete { call_id, server_tag } => match self.table.incomplete_index(
                call_id,
                server_tag,
            ) {
                Some(i) => DialogsRun {
                    table: self.table.without_incomplete(i),
                    held: self.held.push(self.table.incomplete[i]),
                },
                None => self,
            },
            DialogsOp::Complete { held, client_tag } => if 0 <= held < self.held.len() {
                DialogsRun {
                    table: self.table.completed(self.held[held], client_tag),
                    held: self.held.remove(held),
                }
            } else {
                self
            },
        }
    }

    /// The table after a sequence of uses, from the empty table.
    pub open spec fn run(ops: Seq<DialogsOp>) -> DialogsRun
        decreases ops.len(),
    {
        if ops.len() == 0 {
            Self::start()
        } else {
            Self::run(ops.drop_last()).step(ops.last())
        }
    }

    /// The table is well formed and admits each dialog that was taken out,
    /// and what holds between the entries of a well-formed table holds
    /// between the dialogs that were taken out too.
    pub open spec fn inv(self) -> bool {
        &&& self.table.wf()
        &&& forall|k: int| 0 <= k < self.held.len() ==> self.table.admits(#[trigger] self.held[k])
        &&& forall|k: int, l: int|
            0 <= k < l < self.held.len() ==> (#[trigger] self.held[k]).id != (
            #[trigger] self.held[l]).id
        &&& forall|k: int, l: int|
            0 <= k < self.held.len() && 0 <= l < self.held.len() && (
            #[trigger] self.held[k]).linked_dialog == (#[trigger] self.held[l]).id
                ==> self.held[l].linked_dialog == self.held[k].id
    }
}

/// One use keeps a table in use in order.
pub proof fn lemma_step_inv(run: DialogsRun, op: DialogsOp)
    requires
        run.inv(),
    ensures
        run.step(op).inv(),
{
    let after = run.step(op);
    match op {
        DialogsOp::Add { dialog, incomplete } => {
            if run.table.next_id + 2 <= u32::MAX {
                lemma_added_wf(run.table, dialog, incomplete);
                assert forall|k: int| 0 <= k < after.held.len() implies after.table.admits(
                    #[trigger] after.held[k],
                ) by {
                    assert(run.table.admits(run.held[k]));
                }
            }
        },
        DialogsOp::TakeIncomplete { call_id, server_tag } => {
            lemma_first_index(run.table.incomplete, is_incomplete(call_id, server_tag));
            match run.table.incomplete_index(call_id, server_tag) {
                Some(i) => {
                    lemma_without_incomplete_wf(run.table, i);
                    let taken = run.table.incomplete[i];
                    let n = run.held.len() as int;
                    assert forall|k: int| 0 <= k < after.held.len() implies after.table.admits(
                        #[trigger] after.held[k],
                    ) by {
                        if k < n {
                            assert(run.table.admits(run.held[k]));
                        }
                    }
                    assert forall|k: int, l: int| 0 <= k < l < after.held.len() implies (
                    #[trigger] after.held[k]).id != (#[trigger] after.held[l]).id by {
                        if l == n {
                            assert(run.table.admits(run.held[k]));
                        }
                    }
                    assert forall|k: int, l: int|
                        0 <= k < after.held.len() && 0 <= l < after.held.len() && (
                        #[trigger] after.held[k]).linked_dialog == (#[trigger] after.held[l]).id
                        implies after.held[l].linked_dialog == after.held[k].id by {
                        if k < n && l == n {
                            assert(run.table.admits(run.held[k]));
                        } else if k == n && l < n {
                            assert(run.table.admits(run.held[l]));
                        }
                    }
                },
                None => {},
            }
        },
        DialogsOp::Complete { held, client_tag } => {
            if 0 <= held < run.held.len() {
                let back = run.held[held];
                assert(run.table.admits(back));
                lemma_completed_wf(run.table, back, client_tag);
                assert forall|k: int| 0 <= k < after.held.len() implies #[trigger] after.held[k]
                    == run.held[if k < held { k } else { k + 1 }] by {}
                assert forall|k: int| 0 <= k < after.held.len() implies after.table.admits(
                    #[trigger] after.held[k],
                ) by {
                    let before = if k < held { k } else { k + 1 };
                    assert(run.table.admits(run.held[before]));
                    assert(run.held[before].id != back.id);
                }
            }
        },
    }
}

/// Whatever the uses of a table were, it is well formed.
pub proof fn lemma_run_inv(ops: Seq<DialogsOp>)
    ensures
        DialogsRun::run(ops).inv(),
        DialogsRun::run(ops).table.wf(),
    decreases ops.len(),
{
    if ops.len() > 0 {
        lemma_run_inv(ops.drop_last());
        lemma_step_inv(DialogsRun::run(ops.drop_last()), ops.last());
    }
}

/// After any sequence of uses of a table: where its established dialogs
/// differ in their identifiers, the dialog linked to an established dialog
/// is its partner and not the dialog itself.
pub proof fn lemma_linked_after_any_run(ops: Seq<DialogsOp>, i: int)
    requires
        DialogsRun::run(ops).table.distinct_dialogs(),
        0 <= i < DialogsRun::run(ops).table.dialogs.len(),
    ensures
        ({
            let table = DialogsRun::run(ops).table;
            let own = table.dialogs[i];
            let linked = table.linked(own.call_id, own.server_tag, own.client_tag);
            &&& linked == table.by_id(own.linked_dialog)
            &&& linked matches Some(other) ==> {
                &&& other.id == own.linked_dialog
                &&& other.linked_dialog == own.id
                &&& other != own
            }
        }),
{
    lemma_run_inv(ops);
    lemma_linked_is_partner(DialogsRun::run(ops).table, i);
}

} // verus!
