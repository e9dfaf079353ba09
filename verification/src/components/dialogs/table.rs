//! The table of dialogs and its entries.

use vstd::prelude::*;
use crate::components::dialogs::model::{
    has_id, is_dialog, is_incomplete, DialogInfoView, DialogView, DialogsView,
    IncompleteDialogInfoView, IncompleteDialogView,
};
use crate::search::{lemma_first_index, lemma_first_index_is};

verus! {

/// What identifies an established dialog on one leg.
#[derive(Debug)]
pub struct DialogInfo {
    call_id: String,
    server_tag: String,
    client_tag: String,
}

impl View for DialogInfo {
    type V = DialogInfoView;

    closed spec fn view(&self) -> DialogInfoView {
        DialogInfoView {
            call_id: self.call_id@,
            server_tag: self.server_tag@,
            client_tag: self.client_tag@,
        }
    }
}

impl DialogInfo {
    pub fn new(call_id: String, server_tag: String, client_tag: String) -> (r: Self)
        ensures
            r@ == (DialogInfoView {
                call_id: call_id@,
                server_tag: server_tag@,
                client_tag: client_tag@,
            }),
    {
        Self { call_id, server_tag, client_tag }
    }
}

/// What identifies a leg that still waits for the peer's tag.
#[derive(Debug)]
pub struct IncompleteDialogInfo {
    call_id: String,
    server_tag: String,
}

impl View for IncompleteDialogInfo {
    type V = IncompleteDialogInfoView;

    closed spec fn view(&self) -> IncompleteDialogInfoView {
        IncompleteDialogInfoView { call_id: self.call_id@, server_tag: self.server_tag@ }
    }
}

impl IncompleteDialogInfo {
    pub fn new(call_id: String, server_tag: String) -> (r: Self)
        ensures
            r@ == (IncompleteDialogInfoView { call_id: call_id@, server_tag: server_tag@ }),
    {
        Self { call_id, server_tag }
    }
}

/// An established dialog in the table.
#[derive(Debug)]
pub struct Dialog {
    id: u32,
    call_id: String,
    server_tag: String,
    client_tag: String,
    linked_dialog: u32,
}

impl View for Dialog {
    type V = DialogView;

    closed spec fn view(&self) -> DialogView {
        DialogView {
            id: self.id,
            call_id: self.call_id@,
            server_tag: self.server_tag@,
            client_tag: self.client_tag@,
            linked_dialog: self.linked_dialog,
        }
    }
}

impl DeepView for Dialog {
    type V = DialogView;

    open spec fn deep_view(&self) -> DialogView {
        self@
    }
}

impl Dialog {
    pub fn call_id(&self) -> (r: &String)
        ensures
            r@ == self@.call_id,
    {
        &self.call_id
    }

    pub fn server_tag(&self) -> (r: &String)
        ensures
            r@ == self@.server_tag,
    {
        &self.server_tag
    }

    pub fn client_tag(&self) -> (r: &String)
        ensures
            r@ == self@.client_tag,
    {
        &self.client_tag
    }
}

/// A dialog in the table that waits for the peer's tag.
#[derive(Debug)]
pub struct IncompleteDialog {
    id: u32,
    call_id: String,
    server_tag: String,
    linked_dialog: u32,
}

impl View for IncompleteDialog {
    type V = IncompleteDialogView;

    closed spec fn view(&self) -> IncompleteDialogView {
        IncompleteDialogView {
            id: self.id,
            call_id: self.call_id@,
            server_tag: self.server_tag@,
            linked_dialog: self.linked_dialog,
        }
    }
}

impl DeepView for IncompleteDialog {
    type V = IncompleteDialogView;

    open spec fn deep_view(&self) -> IncompleteDialogView {
        self@
    }
}

/// The table of dialogs.
#[derive(Debug)]
pub struct Dialogs {
    dialogs: Vec<Dialog>,
    incomplete_dialogs: Vec<IncompleteDialog>,
    next_dialog_id: u32,
}

impl View for Dialogs {
    type V = DialogsView;

    closed spec fn view(&self) -> DialogsView {
        DialogsView {
            dialogs: self.dialogs.deep_view(),
            incomplete: self.incomplete_dialogs.deep_view(),
            next_id: self.next_dialog_id,
        }
    }
}

impl Default for Dialogs {
    fn default() -> (r: Self)
        ensures
            r@ == DialogsView::empty(),
            r@.wf(),
    {
        Self::new()
    }
}

impl Dialogs {
    /// An empty table.
    pub fn new() -> (r: Self)
        ensures
            r@ == DialogsView::empty(),
            r@.wf(),
    {
        let r = Dialogs { dialogs: Vec::new(), incomplete_dialogs: Vec::new(), next_dialog_id: 0 };
        assert(r.dialogs.deep_view() =~= Seq::empty());
        assert(r.incomplete_dialogs.deep_view() =~= Seq::empty());
        r
    }

    /// Whether the table can still hand out the two ids that [`Dialogs::add`]
    /// takes.
    pub fn has_room(&self) -> (r: bool)
        ensures
            r == (self@.next_id + 2 <= u32::MAX),
    {
        self.next_dialog_id <= u32::MAX - 2
    }

    /// Adds an established dialog and, linked to it, the incomplete dialog
    /// of the other leg.
    pub fn add(&mut self, dialog_info: DialogInfo, incomplete_dialog_info: IncompleteDialogInfo)
        requires
            old(self)@.next_id + 2 <= u32::MAX,
        ensures
            final(self)@ == old(self)@.added(dialog_info@, incomplete_dialog_info@),
            old(self)@.wf() ==> final(self)@.wf(),
    {
        let ghost before = self@;
        let dialog_id = self.take_dialog_id();
        let incomplete_dialog_id = self.take_dialog_id();

        let dialog = Dialog {
            id: dialog_id,
            call_id: dialog_info.call_id,
            server_tag: dialog_info.server_tag,
            client_tag: dialog_info.client_tag,
            linked_dialog: incomplete_dialog_id,
        };
        self.dialogs.push(dialog);

        let incomplete_dialog = IncompleteDialog {
            id: incomplete_dialog_id,
            call_id: incomplete_dialog_info.call_id,
            server_tag: incomplete_dialog_info.server_tag,
            linked_dialog: dialog_id,
        };
        self.incomplete_dialogs.push(incomplete_dialog);
        proof {
            let after = before.added(dialog_info@, incomplete_dialog_info@);
            assert(self@.dialogs =~= after.dialogs);
            assert(self@.incomplete =~= after.incomplete);
        }
    }

    /// The established dialog on the other leg of the dialog with these
    /// identifiers.
    pub fn linked_dialog(&self, call_id: &str, server_tag: &str, client_tag: &str) -> (r: Option<
        &Dialog,
    >)
        ensures
            r.deep_view() == self@.linked(call_id@, server_tag@, client_tag@),
    {
        let wanted_call_id = call_id.to_owned();
        let wanted_server_tag = server_tag.to_owned();
        let wanted_client_tag = client_tag.to_owned();
        let ghost wanted = is_dialog(call_id@, server_tag@, client_tag@);
        let mut i: usize = 0;
        while i < self.dialogs.len()
            invariant
                i <= self.dialogs.len(),
                wanted == is_dialog(call_id@, server_tag@, client_tag@),
                wanted_call_id@ == call_id@,
                wanted_server_tag@ == server_tag@,
                wanted_client_tag@ == client_tag@,
                forall|j: int| 0 <= j < i ==> !wanted(#[trigger] self@.dialogs[j]),
            decreases self.dialogs.len() - i,
        {
            let d = &self.dialogs[i];
            if d.call_id == wanted_call_id && d.server_tag == wanted_server_tag && d.client_tag
                == wanted_client_tag {
                proof {
                    assert(wanted(self@.dialogs[i as int]));
                    lemma_first_index_is(self@.dialogs, wanted, i as int);
                }
                return self.dialog_by_id(d.linked_dialog);
            }
            i += 1;
        }
        proof {
            lemma_first_index(self@.dialogs, wanted);
        }
        None
    }

    /// Takes out the incomplete dialog with these identifiers.
    pub fn take_incomplete_dialog(&mut self, call_id: &str, server_tag: &str) -> (r: Option<
        IncompleteDialog,
    >)
        ensures
            match old(self)@.incomplete_index(call_id@, server_tag@) {
                Some(i) => r.deep_view() == Some(old(self)@.incomplete[i]) && final(self)@ == old(
                    self,
                )@.without_incomplete(i),
                None => r is None && final(self)@ == old(self)@,
            },
            old(self)@.wf() ==> final(self)@.wf(),
            old(self)@.wf() ==> (r matches Some(d) ==> final(self)@.admits(d@)),
    {
        let wanted_call_id = call_id.to_owned();
        let wanted_server_tag = server_tag.to_owned();
        let ghost wanted = is_incomplete(call_id@, server_tag@);
        let mut i: usize = 0;
        while i < self.incomplete_dialogs.len()
            invariant
                *self == *old(self),
                i <= self.incomplete_dialogs.len(),
                wanted == is_incomplete(call_id@, server_tag@),
                wanted_call_id@ == call_id@,
                wanted_server_tag@ == server_tag@,
                forall|j: int| 0 <= j < i ==> !wanted(#[trigger] self@.incomplete[j]),
            decreases self.incomplete_dialogs.len() - i,
        {
            let d = &self.incomplete_dialogs[i];
            if d.call_id == wanted_call_id && d.server_tag == wanted_server_tag {
                proof {
                    assert(wanted(self@.incomplete[i as int]));
                    lemma_first_index_is(self@.incomplete, wanted, i as int);
                }
                let taken = self.incomplete_dialogs.swap_remove(i);
                proof {
                    let after = old(self)@.without_incomplete(i as int);
                    assert(self@.incomplete =~= after.incomplete);
                }
                return Some(taken);
            }
            i += 1;
        }
        proof {
            lemma_first_index(self@.incomplete, wanted);
        }
        None
    }

    /// Puts an incomplete dialog back as an established one, with the tag
    /// that the peer chose.
    pub fn complete_dialog(&mut self, dialog: IncompleteDialog, client_tag: String)
        ensures
            final(self)@ == old(self)@.completed(dialog@, client_tag@),
            old(self)@.wf() && old(self)@.admits(dialog@) ==> final(self)@.wf(),
    {
        let ghost before = self@;
        let established = Dialog {
            id: dialog.id,
            call_id: dialog.call_id,
            server_tag: dialog.server_tag,
            client_tag,
            linked_dialog: dialog.linked_dialog,
        };
        self.dialogs.push(established);
        proof {
            assert(self@.dialogs =~= before.dialogs.push(established@));
        }
    }

    fn dialog_by_id(&self, id: u32) -> (r: Option<&Dialog>)
        ensures
            r.deep_view() == self@.by_id(id),
    {
        let ghost wanted = has_id(id);
        let mut i: usize = 0;
        while i < self.dialogs.len()
            invariant
                i <= self.dialogs.len(),
                wanted == has_id(id),
                forall|j: int| 0 <= j < i ==> !wanted(#[trigger] self@.dialogs[j]),
            decreases self.dialogs.len() - i,
        {
            if self.dialogs[i].id == id {
                proof {
                    assert(wanted(self@.dialogs[i as int]));
                    lemma_first_index_is(self@.dialogs, wanted, i as int);
                }
                return Some(&self.dialogs[i]);
            }
            i += 1;
        }
        proof {
            lemma_first_index(self@.dialogs, wanted);
        }
        None
    }

    fn take_dialog_id(&mut self) -> (id: u32)
        requires
            old(self).next_dialog_id < u32::MAX,
        ensures
            id == old(self).next_dialog_id,
            final(self).next_dialog_id == id + 1,
            final(self).dialogs == old(self).dialogs,
            final(self).incomplete_dialogs == old(self).incomplete_dialogs,
    {
        let id = self.next_dialog_id;
        self.next_dialog_id += 1;
        id
    }
}

} // verus!
