//! Fresh call identifiers and tags for the legs that the server opens.

use vstd::prelude::*;
use vstd::string::StringExecFns;
use rand::RngCore;
use crate::text::{hex_text, push_hex};

verus! {

/// Eight bytes from the operating system's source of randomness:
/// `RngCore::try_fill_bytes` of `rand::rngs::OsRng`, on a buffer of eight
/// bytes. `None` where the system gives no bytes. Nothing is claimed of the
/// bytes: each call may return any eight.
#[verifier::external_body]
fn os_random_bytes() -> (r: Option<[u8; 8]>) {
    let mut bytes = [0u8; 8];
    match rand::rngs::OsRng.try_fill_bytes(&mut bytes) {
        Ok(()) => Some(bytes),
        Err(_) => None,
    }
}

/// The number that eight bytes stand for, the lowest byte first.
pub open spec fn number_of_bytes(bytes: Seq<u8>) -> int
    recommends
        bytes.len() == 8,
{
    bytes[0] + bytes[1] * 0x100 + bytes[2] * 0x1_0000 + bytes[3] * 0x100_0000 + bytes[4]
        * 0x1_0000_0000 + bytes[5] * 0x100_0000_0000 + bytes[6] * 0x1_0000_0000_0000 + bytes[7]
        * 0x100_0000_0000_0000
}

/// The number that eight bytes stand for, the lowest byte first.
fn number_of(bytes: &[u8; 8]) -> (r: u64)
    ensures
        r == number_of_bytes(bytes@),
{
    let b0: u64 = bytes[0] as u64;
    let b1: u64 = bytes[1] as u64;
    let b2: u64 = bytes[2] as u64;
    let b3: u64 = bytes[3] as u64;
    let b4: u64 = bytes[4] as u64;
    let b5: u64 = bytes[5] as u64;
    let b6: u64 = bytes[6] as u64;
    let b7: u64 = bytes[7] as u64;
    b0 + b1 * 0x100 + b2 * 0x1_0000 + b3 * 0x100_0000 + b4 * 0x1_0000_0000 + b5 * 0x100_0000_0000
        + b6 * 0x1_0000_0000_0000 + b7 * 0x100_0000_0000_0000
}

/// A 64-bit number from the operating system's source of randomness.
fn os_random_u64() -> (r: Option<u64>) {
    match os_random_bytes() {
        Some(bytes) => Some(number_of(&bytes)),
        None => None,
    }
}

/// The call identifier made of two numbers: both in hexadecimal, with a
/// hyphen between them.
pub open spec fn call_id_text(v1: u64, v2: u64) -> Seq<char> {
    hex_text(v1 as nat) + seq!['-'] + hex_text(v2 as nat)
}

/// The tag made of a number: the number in hexadecimal.
pub open spec fn tag_text(v: u64) -> Seq<char> {
    hex_text(v as nat)
}

/// The text is a call identifier as the generator makes them.
pub open spec fn is_call_id(text: Seq<char>) -> bool {
    exists|v1: u64, v2: u64| text == call_id_text(v1, v2)
}

/// The text is a tag as the generator makes them.
pub open spec fn is_tag(text: Seq<char>) -> bool {
    exists|v: u64| text == tag_text(v)
}

/// The call identifier made of two numbers.
pub fn call_id_from(v1: u64, v2: u64) -> (r: String)
    ensures
        r@ == call_id_text(v1, v2),
{
    let mut out = String::new();
    push_hex(&mut out, v1);
    out.append("-");
    push_hex(&mut out, v2);
    proof {
        reveal_strlit("-");
        assert("-"@ =~= seq!['-']);
        assert(out@ =~= call_id_text(v1, v2));
    }
    out
}

/// The tag made of a number.
pub fn tag_from(v: u64) -> (r: String)
    ensures
        r@ == tag_text(v),
{
    let mut out = String::new();
    push_hex(&mut out, v);
    assert(out@ =~= tag_text(v));
    out
}

/// Makes call identifiers and tags from random numbers.
#[derive(Debug, Default)]
pub struct DialogGen;

impl DialogGen {
    pub fn new() -> (r: Self)
        ensures
            r == DialogGen,
    {
        Self
    }

    /// A call identifier made of two random numbers; `None` where the
    /// operating system gives no random numbers.
    pub fn call_id(&self) -> (r: Option<String>)
        ensures
            r matches Some(call_id) ==> is_call_id(call_id@),
    {
        let v1 = match os_random_u64() {
            Some(v1) => v1,
            None => {
                return None;
            },
        };
        let v2 = match os_random_u64() {
            Some(v2) => v2,
            None => {
                return None;
            },
        };
        Some(call_id_from(v1, v2))
    }

    /// A tag made of a random number; `None` where the operating system
    /// gives no random numbers.
    pub fn tag(&self) -> (r: Option<String>)
        ensures
            r matches Some(tag) ==> is_tag(tag@),
    {
        match os_random_u64() {
            Some(v) => Some(tag_from(v)),
            None => None,
        }
    }
}

} // verus!
