//! The table of dialogs that a back-to-back user agent keeps.
//!
//! A call that the server splices has two legs, and on each leg the server
//! and the peer share a dialog: a call identifier, the tag that the server
//! chose and the tag that the peer chose. The table holds the dialogs of
//! both legs and links them by their ids, so that a message of one leg can
//! be rewritten into the identifiers of the other. A leg whose peer has not
//! answered yet has no peer tag: it waits in the table as an incomplete
//! dialog and is completed when the answer comes.

pub mod laws;
pub mod model;
pub mod table;

pub use self::laws::{
    lemma_added_wf, lemma_answered_wf, lemma_completed_wf, lemma_linked_after_any_run,
    lemma_linked_is_partner, lemma_run_inv, lemma_step_inv, lemma_without_incomplete_wf,
    DialogsOp, DialogsRun,
};
pub use self::model::{
    has_id, is_dialog, is_incomplete, DialogInfoView, DialogView, DialogsView,
    IncompleteDialogInfoView, IncompleteDialogView,
};
pub use self::table::{Dialog, DialogInfo, Dialogs, IncompleteDialog, IncompleteDialogInfo};
