//! The state that the clients of one server share.

use vstd::prelude::*;
use crate::components::dialog_gen::DialogGen;
use crate::components::dialogs::{Dialogs, DialogsView};
use crate::components::registrations::Registrations;
use crate::peer_address::PeerAddress;

verus! {

/// The tables of the server, and its source of fresh identifiers.
#[derive(Debug)]
pub struct MySystem {
    pub dialogs: Dialogs,
    pub registrations: Registrations,
    pub dialog_gen: DialogGen,
}

/// The mathematical value of a [`MySystem`]: what its two tables hold.
pub struct MySystemView {
    pub dialogs: DialogsView,
    pub registrations: Map<Seq<char>, PeerAddress>,
}

impl View for MySystem {
    type V = MySystemView;

    open spec fn view(&self) -> MySystemView {
        MySystemView { dialogs: self.dialogs@, registrations: self.registrations@ }
    }
}

impl MySystem {
    /// A system with empty tables.
    pub fn new() -> (r: Self)
        ensures
            r@.dialogs == DialogsView::empty(),
            r@.registrations == Map::<Seq<char>, PeerAddress>::empty(),
    {
        Self {
            dialogs: Dialogs::new(),
            registrations: Registrations::new(),
            dialog_gen: DialogGen::new(),
        }
    }
}

} // verus!
