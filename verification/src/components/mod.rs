pub mod dialog_gen;
pub mod dialogs;
pub mod registrations;

pub use dialog_gen::DialogGen;
pub use dialogs::{Dialog, DialogInfo, Dialogs, IncompleteDialog, IncompleteDialogInfo};
pub use registrations::Registrations;
