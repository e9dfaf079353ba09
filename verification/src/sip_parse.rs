//! Which payloads are handed to the parser.

use vstd::prelude::*;

verus! {

/// The longest payload that is taken for a keep-alive and not for a
/// message: some phones send two line ends, four bytes, every half minute.
pub const KEEP_ALIVE_LEN: usize = 4;

/// Whether a payload of `len` bytes is handed to the parser. A payload of
/// four bytes or less cannot hold a message: it is dropped, and nothing is
/// reported.
pub fn worth_parsing(len: usize) -> (r: bool)
    ensures
        r == (len > 4),
{
    len > KEEP_ALIVE_LEN
}

} // verus!
