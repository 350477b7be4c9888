//! String Marshaling Layer: converts between native text values and the
//! (offset, length) pairs that the numeric boundary convention can carry.
//!
//! A [`GuestString`] is a native string whose backing bytes sit in an owned
//! region of linear memory; [`string_to_ptr`] reads off its numeric pair
//! without copying or allocating, and [`ptr_to_string`] interprets a pair as
//! UTF-8 text. The decode path validates the bytes and fails with
//! [`DecodeError`] on non-UTF-8 input: a deliberate strengthening over a
//! boundary that would otherwise reinterpret the bytes unchecked.

use crate::memory::LinearMemory;
use vstd::prelude::*;
use vstd::string::StrSliceExecFns;
use vstd::utf8::decode_utf8;
use vstd::utf8::encode_utf8;
use vstd::utf8::encode_utf8_decode_utf8;
use vstd::utf8::encode_utf8_valid_utf8;
use vstd::utf8::valid_utf8;

verus! {

/// Failure of the decode path: the referenced bytes are not valid UTF-8.
#[derive(Clone, Copy, PartialEq, Eq, Structural, Debug)]
pub enum DecodeError {
    InvalidUtf8,
}

/// A native string value whose backing bytes live in an owned region of
/// linear memory: the guest-side half of an outbound boundary crossing.
/// `chars` is the ghost record of the characters it spells.
pub struct GuestString {
    pub offset: u32,
    pub len: u32,
    pub chars: Ghost<Seq<char>>,
}

impl GuestString {
    /// The string is backed by memory it owns: the region at `offset` of
    /// `len` bytes is a live allocation, lies in bounds, and holds exactly
    /// the UTF-8 encoding of `chars`.
    pub open spec fn wf(self, mem: LinearMemory) -> bool {
        &&& mem.owns(self.offset, self.len)
        &&& self.offset + self.len <= mem.data@.len()
        &&& mem.region(self.offset, self.len) == encode_utf8(self.chars@)
    }
}

/// The numeric (offset, length) pair for the given string, usable by the
/// boundary calling convention. This borrows: ownership of the backing
/// region stays where it was, nothing is copied and nothing is allocated,
/// and the pair is only valid while the backing region stays live.
pub fn string_to_ptr(s: &GuestString) -> (r: (u32, u32))
    ensures
        r.0 == s.offset,
        r.1 == s.len,
{
    (s.offset, s.len)
}

/// Relies on std's `core::str::from_utf8`: it succeeds exactly when the
/// bytes are valid UTF-8, and the string it returns is a view of those very
/// bytes, so its characters encode back to them.
#[verifier::external_body]
fn from_utf8_checked(bytes: &Vec<u8>) -> (r: Option<String>)
    ensures
        r is Some <==> valid_utf8(bytes@),
        r matches Some(s) ==> encode_utf8(s@) == bytes@,
{
    match core::str::from_utf8(bytes.as_slice()) {
        Ok(s) => Some(String::from(s)),
        Err(_) => None,
    }
}

/// Interprets `len` bytes of linear memory starting at `offset` as UTF-8
/// and returns them as a fresh native string. Succeeds exactly when the
/// region holds valid UTF-8; the caller must be entitled to read the
/// region, which is a convention of the protocol, not something this layer
/// can check.
pub fn ptr_to_string(mem: &LinearMemory, offset: u32, len: u32) -> (r: Result<
    String,
    DecodeError,
>)
    requires
        offset + len <= mem.data@.len(),
    ensures
        r is Ok <==> valid_utf8(mem.region(offset, len)),
        r matches Ok(s) ==> s@ == decode_utf8(mem.region(offset, len)),
        r matches Ok(s) ==> encode_utf8(s@) == mem.region(offset, len),
        r is Err ==> r == Result::<String, DecodeError>::Err(DecodeError::InvalidUtf8),
{
    let bytes = mem.read_bytes(offset, len);
    match from_utf8_checked(&bytes) {
        Some(s) => {
            proof {
                encode_utf8_decode_utf8(s@);
            }
            Ok(s)
        },
        None => Err(DecodeError::InvalidUtf8),
    }
}

/// Writes `message`'s UTF-8 bytes into the owned region at `offset`, whose
/// size must equal the encoding's length exactly, and returns the resulting
/// in-memory string. Ownership of the region is untouched: the caller keeps
/// it and remains responsible for eventual deallocation.
pub fn store_string(mem: &mut LinearMemory, offset: u32, message: &String) -> (g: GuestString)
    requires
        old(mem).wf(),
        old(mem).live@.contains_key(offset),
        old(mem).live@[offset] as int == encode_utf8(message@).len() as int,
    ensures
        g.offset == offset,
        g.len as int == encode_utf8(message@).len() as int,
        g.chars@ == message@,
        g.wf(*final(mem)),
        final(mem).wf(),
        final(mem).live@ == old(mem).live@,
        final(mem).next == old(mem).next,
        final(mem).data@.len() == old(mem).data@.len(),
        forall|j: int|
            0 <= j < old(mem).data@.len()
                && !(offset as int <= j < offset as int + encode_utf8(message@).len())
                ==> final(mem).data@[j] == old(mem).data@[j],
{
    let bytes: Vec<u8> = message.as_str().as_bytes_vec();
    mem.write_bytes(offset, &bytes);
    let len: u32 = bytes.len() as u32;
    GuestString { offset, len, chars: Ghost(message@) }
}

/// Round trip: the bytes a stored string put into linear memory are valid
/// UTF-8, and decoding the region its (offset, length) pair names yields
/// exactly the characters that were stored.
pub proof fn lemma_round_trip(mem: LinearMemory, g: GuestString)
    requires
        g.wf(mem),
    ensures
        valid_utf8(mem.region(g.offset, g.len)),
        decode_utf8(mem.region(g.offset, g.len)) == g.chars@,
{
    encode_utf8_valid_utf8(g.chars@);
    encode_utf8_decode_utf8(g.chars@);
}

} // verus!
