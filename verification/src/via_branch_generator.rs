//! Branch values for the `Via` headers that the server writes.

use vstd::prelude::*;
use vstd::string::StringExecFns;
use crate::text::{decimal_text, lemma_decimal_text_injective, push_decimal};

verus! {

/// The branch that the generator hands out when its counter stands at `n`:
/// the prefix that marks a branch of this protocol version, then `n` in
/// decimal.
pub open spec fn branch_text(n: nat) -> Seq<char> {
    "z9hG4bK-"@ + decimal_text(n)
}

/// Hands out branches that differ from one another.
pub struct ViaBranchGenerator {
    counter: u64,
}

impl View for ViaBranchGenerator {
    type V = nat;

    /// The number of branches handed out so far.
    closed spec fn view(&self) -> nat {
        self.counter as nat
    }
}

impl ViaBranchGenerator {
    pub fn new() -> (r: Self)
        ensures
            r@ == 0,
    {
        Self { counter: 0 }
    }

    /// Whether another branch can be handed out.
    pub fn has_next(&self) -> (r: bool)
        ensures
            r == (self@ < u64::MAX),
    {
        self.counter < u64::MAX
    }

    /// Returns a next unique branch.
    pub fn branch(&mut self) -> (r: String)
        requires
            old(self)@ < u64::MAX,
        ensures
            r@ == branch_text(old(self)@),
            final(self)@ == old(self)@ + 1,
    {
        let mut branch = String::from_str("z9hG4bK-");
        push_decimal(&mut branch, self.counter);
        self.counter += 1;
        branch
    }
}

impl Default for ViaBranchGenerator {
    fn default() -> (r: Self)
        ensures
            r@ == 0,
    {
        Self::new()
    }
}

/// Every branch begins with the prefix that the protocol asks for.
pub proof fn lemma_branch_prefix(n: nat)
    ensures
        branch_text(n).len() > 8,
        branch_text(n).subrange(0, 8) == "z9hG4bK-"@,
{
    reveal_strlit("z9hG4bK-");
    crate::text::lemma_decimal_text_len(n);
    assert(branch_text(n).subrange(0, 8) =~= "z9hG4bK-"@);
}

/// Branches handed out at different counts differ: a generator never hands
/// out the same branch twice.
pub proof fn lemma_branches_distinct(m: nat, n: nat)
    requires
        m != n,
    ensures
        branch_text(m) != branch_text(n),
{
    reveal_strlit("z9hG4bK-");
    if branch_text(m) == branch_text(n) {
        let p = "z9hG4bK-"@;
        assert(branch_text(m).subrange(8, branch_text(m).len() as int) =~= decimal_text(m));
        assert(branch_text(n).subrange(8, branch_text(n).len() as int) =~= decimal_text(n));
        lemma_decimal_text_injective(m, n);
    }
}

} // verus!
