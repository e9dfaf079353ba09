//! What the clients of one server share besides its tables.

use vstd::prelude::*;
use crate::via_branch_generator::{branch_text, ViaBranchGenerator};

verus! {

/// The helpers that all clients of a server share.
pub struct Utils {
    via_branch_generator: ViaBranchGenerator,
}

impl View for Utils {
    type V = nat;

    /// The number of branches handed out so far.
    closed spec fn view(&self) -> nat {
        self.via_branch_generator@
    }
}

impl Utils {
    pub fn new() -> (r: Self)
        ensures
            r@ == 0,
    {
        Self { via_branch_generator: ViaBranchGenerator::new() }
    }

    /// Whether another branch can be handed out.
    pub fn has_next(&self) -> (r: bool)
        ensures
            r == (self@ < u64::MAX),
    {
        self.via_branch_generator.has_next()
    }

    /// A branch for a `Via` header, different from all that were handed out
    /// before.
    pub fn via_branch(&mut self) -> (r: String)
        requires
            old(self)@ < u64::MAX,
        ensures
            r@ == branch_text(old(self)@),
            final(self)@ == old(self)@ + 1,
    {
        self.via_branch_generator.branch()
    }
}

impl Default for Utils {
    fn default() -> (r: Self)
        ensures
            r@ == 0,
    {
        Self::new()
    }
}

} // verus!
