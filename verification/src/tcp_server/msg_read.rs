//! Which reads from a connection are handed to the parser.

use vstd::prelude::*;
use crate::sip_parse::worth_parsing;

verus! {

/// Whether what one read from a connection brought, `len` bytes, is parsed:
/// four bytes or less are passed over without a word.
pub fn read_msg(len: usize) -> (r: bool)
    ensures
        r == (len > 4),
{
    worth_parsing(len)
}

} // verus!
