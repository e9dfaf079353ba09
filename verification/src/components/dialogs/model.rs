//! What the table of dialogs holds, as mathematical values, and what its
//! operations make of it.

use vstd::prelude::*;
use crate::search::first_index;

verus! {

/// The mathematical value of a [`DialogInfo`].
pub struct DialogInfoView {
    pub call_id: Seq<char>,
    pub server_tag: Seq<char>,
    pub client_tag: Seq<char>,
}

/// The mathematical value of an [`IncompleteDialogInfo`].
pub struct IncompleteDialogInfoView {
    pub call_id: Seq<char>,
    pub server_tag: Seq<char>,
}

/// The mathematical value of a [`Dialog`].
pub struct DialogView {
    pub id: u32,
    pub call_id: Seq<char>,
    pub server_tag: Seq<char>,
    pub client_tag: Seq<char>,
    pub linked_dialog: u32,
}

/// The mathematical value of an [`IncompleteDialog`].
pub struct IncompleteDialogView {
    pub id: u32,
    pub call_id: Seq<char>,
    pub server_tag: Seq<char>,
    pub linked_dialog: u32,
}

impl IncompleteDialogView {
    /// The established dialog that this one becomes when the peer's tag is
    /// learned: same id, same link.
    pub open spec fn with_client_tag(self, client_tag: Seq<char>) -> DialogView {
        DialogView {
            id: self.id,
            call_id: self.call_id,
            server_tag: self.server_tag,
            client_tag,
            linked_dialog: self.linked_dialog,
        }
    }
}

/// The mathematical value of a [`Dialogs`] table: its entries in the order
/// in which they are searched, and the id that the next entry gets.
pub struct DialogsView {
    pub dialogs: Seq<DialogView>,
    pub incomplete: Seq<IncompleteDialogView>,
    pub next_id: u32,
}

/// The dialogs with this call identifier and these tags.
pub open spec fn is_dialog(call_id: Seq<char>, server_tag: Seq<char>, client_tag: Seq<char>)
    -> spec_fn(DialogView) -> bool {
    |d: DialogView| d.call_id == call_id && d.server_tag == server_tag && d.client_tag == client_tag
}

/// The dialogs with this id.
pub open spec fn has_id(id: u32) -> spec_fn(DialogView) -> bool {
    |d: DialogView| d.id == id
}

/// The incomplete dialogs with this call identifier and server tag.
pub open spec fn is_incomplete(call_id: Seq<char>, server_tag: Seq<char>) -> spec_fn(
    IncompleteDialogView,
) -> bool {
    |d: IncompleteDialogView| d.call_id == call_id && d.server_tag == server_tag
}

impl DialogsView {
    /// The empty table.
    pub open spec fn empty() -> DialogsView {
        DialogsView { dialogs: Seq::empty(), incomplete: Seq::empty(), next_id: 0 }
    }

    /// The first established dialog with this id.
    pub open spec fn by_id(self, id: u32) -> Option<DialogView> {
        match first_index(self.dialogs, has_id(id)) {
            Some(i) => Some(self.dialogs[i]),
            None => None,
        }
    }

    /// The place of the first established dialog with these identifiers.
    pub open spec fn dialog_index(
        self,
        call_id: Seq<char>,
        server_tag: Seq<char>,
        client_tag: Seq<char>,
    ) -> Option<int> {
        first_index(self.dialogs, is_dialog(call_id, server_tag, client_tag))
    }

    /// The established dialog on the other leg of the first dialog with
    /// these identifiers: the one whose id that dialog is linked to.
    pub open spec fn linked(
        self,
        call_id: Seq<char>,
        server_tag: Seq<char>,
        client_tag: Seq<char>,
    ) -> Option<DialogView> {
        match self.dialog_index(call_id, server_tag, client_tag) {
            Some(i) => self.by_id(self.dialogs[i].linked_dialog),
            None => None,
        }
    }

    /// The place of the first incomplete dialog with these identifiers.
    pub open spec fn incomplete_index(self, call_id: Seq<char>, server_tag: Seq<char>) -> Option<
        int,
    > {
        first_index(self.incomplete, is_incomplete(call_id, server_tag))
    }

    /// The table after an established dialog and the incomplete dialog of
    /// the other leg were added, linked to one another under two new ids.
    pub open spec fn added(
        self,
        dialog: DialogInfoView,
        incomplete: IncompleteDialogInfoView,
    ) -> DialogsView
        recommends
            self.next_id + 2 <= u32::MAX,
    {
        DialogsView {
            dialogs: self.dialogs.push(
                DialogView {
                    id: self.next_id,
                    call_id: dialog.call_id,
                    server_tag: dialog.server_tag,
                    client_tag: dialog.client_tag,
                    linked_dialog: (self.next_id + 1) as u32,
                },
            ),
            incomplete: self.incomplete.push(
                IncompleteDialogView {
                    id: (self.next_id + 1) as u32,
                    call_id: incomplete.call_id,
                    server_tag: incomplete.server_tag,
                    linked_dialog: self.next_id,
                },
            ),
            next_id: (self.next_id + 2) as u32,
        }
    }

    /// The table after the incomplete dialog at place `i` was taken out; the
    /// last incomplete dialog takes its place.
    pub open spec fn without_incomplete(self, i: int) -> DialogsView
        recommends
            0 <= i < self.incomplete.len(),
    {
        DialogsView {
            dialogs: self.dialogs,
            incomplete: self.incomplete.update(i, self.incomplete.last()).drop_last(),
            next_id: self.next_id,
        }
    }

    /// The table after an incomplete dialog that was taken out came back
    /// established, with the peer's tag.
    pub open spec fn completed(
        self,
        incomplete: IncompleteDialogView,
        client_tag: Seq<char>,
    ) -> DialogsView {
        DialogsView {
            dialogs: self.dialogs.push(incomplete.with_client_tag(client_tag)),
            incomplete: self.incomplete,
            next_id: self.next_id,
        }
    }

    /// The table after the answer of a leg arrived: the incomplete dialog
    /// with these identifiers, if there is one, is established with the
    /// peer's tag.
    pub open spec fn answered(
        self,
        call_id: Seq<char>,
        server_tag: Seq<char>,
        client_tag: Seq<char>,
    ) -> DialogsView {
        match self.incomplete_index(call_id, server_tag) {
            Some(i) => self.without_incomplete(i).completed(self.incomplete[i], client_tag),
            None => self,
        }
    }

    /// No id is given twice, every id was handed out by this table, no
    /// dialog is linked to itself, and where a dialog is linked to another
    /// one in the table, that one is linked to it.
    pub open spec fn wf(self) -> bool {
        &&& forall|i: int|
            0 <= i < self.dialogs.len() ==> {
                &&& (#[trigger] self.dialogs[i]).id < self.next_id
                &&& self.dialogs[i].linked_dialog < self.next_id
                &&& self.dialogs[i].linked_dialog != self.dialogs[i].id
            }
        &&& forall|i: int|
            0 <= i < self.incomplete.len() ==> {
                &&& (#[trigger] self.incomplete[i]).id < self.next_id
                &&& self.incomplete[i].linked_dialog < self.next_id
                &&& self.incomplete[i].linked_dialog != self.incomplete[i].id
            }
        &&& forall|i: int, j: int|
            0 <= i < j < self.dialogs.len() ==> (#[trigger] self.dialogs[i]).id != (
            #[trigger] self.dialogs[j]).id
        &&& forall|i: int, j: int|
            0 <= i < j < self.incomplete.len() ==> (#[trigger] self.incomplete[i]).id != (
            #[trigger] self.incomplete[j]).id
        &&& forall|i: int, j: int|
            0 <= i < self.dialogs.len() && 0 <= j < self.incomplete.len() ==> (
            #[trigger] self.dialogs[i]).id != (#[trigger] self.incomplete[j]).id
        &&& forall|i: int, j: int|
            0 <= i < self.dialogs.len() && 0 <= j < self.dialogs.len() && (
            #[trigger] self.dialogs[i]).linked_dialog == (#[trigger] self.dialogs[j]).id
                ==> self.dialogs[j].linked_dialog == self.dialogs[i].id
        &&& forall|i: int, j: int|
            0 <= i < self.incomplete.len() && 0 <= j < self.incomplete.len() && (
            #[trigger] self.incomplete[i]).linked_dialog == (#[trigger] self.incomplete[j]).id
                ==> self.incomplete[j].linked_dialog == self.incomplete[i].id
        &&& forall|i: int, j: int|
            0 <= i < self.dialogs.len() && 0 <= j < self.incomplete.len() ==> ((
            #[trigger] self.dialogs[i]).linked_dialog == (#[trigger] self.incomplete[j]).id
                <==> self.incomplete[j].linked_dialog == self.dialogs[i].id)
    }

    /// An incomplete dialog that is outside the table can come back into it:
    /// the table handed out its id and holds no entry with it, it is not
    /// linked to itself, and it is linked to an entry of the table exactly
    /// where that entry is linked to it.
    pub open spec fn admits(self, incomplete: IncompleteDialogView) -> bool {
        &&& incomplete.id < self.next_id
        &&& incomplete.linked_dialog < self.next_id
        &&& incomplete.linked_dialog != incomplete.id
        &&& forall|i: int|
            0 <= i < self.dialogs.len() ==> {
                &&& (#[trigger] self.dialogs[i]).id != incomplete.id
                &&& (self.dialogs[i].linked_dialog == incomplete.id <==> incomplete.linked_dialog
                    == self.dialogs[i].id)
            }
        &&& forall|i: int|
            0 <= i < self.incomplete.len() ==> {
                &&& (#[trigger] self.incomplete[i]).id != incomplete.id
                &&& (self.incomplete[i].linked_dialog == incomplete.id <==> incomplete.linked_dialog
                    == self.incomplete[i].id)
            }
    }

    /// No two established dialogs have the same call identifier and tags.
    pub open spec fn distinct_dialogs(self) -> bool {
        forall|i: int, j: int|
            0 <= i < j < self.dialogs.len() ==> !({
                &&& (#[trigger] self.dialogs[i]).call_id == (#[trigger] self.dialogs[j]).call_id
                &&& self.dialogs[i].server_tag == self.dialogs[j].server_tag
                &&& self.dialogs[i].client_tag == self.dialogs[j].client_tag
            })
    }
}

} // verus!
