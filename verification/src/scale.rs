//! The SCALE encoding of a text, as the programs hand a pet's name to a
//! newly created program.

use vstd::prelude::*;
use vstd::utf8::encode_utf8;

verus! {

/// The `count` lowest bytes of `value`, least significant first.
pub open spec fn le_bytes(value: nat, count: nat) -> Seq<u8>
    decreases count,
{
    if count == 0 {
        Seq::empty()
    } else {
        seq![(value % 256) as u8] + le_bytes(value / 256, (count - 1) as nat)
    }
}

/// SCALE's compact form of a 32-bit length: one, two or four bytes holding
/// `n` shifted left by two with the mode in the low bits, or a mode byte `3`
/// followed by the four bytes of `n`.
pub open spec fn compact_u32(n: nat) -> Seq<u8> {
    if n < 0x40 {
        seq![(n * 4) as u8]
    } else if n < 0x4000 {
        le_bytes(n * 4 + 1, 2)
    } else if n < 0x4000_0000 {
        le_bytes(n * 4 + 2, 4)
    } else {
        seq![3u8] + le_bytes(n, 4)
    }
}

/// SCALE's encoding of a text: the compact length of its UTF-8 form, then
/// that UTF-8 form.
pub open spec fn scale_text(text: Seq<char>) -> Seq<u8> {
    compact_u32(encode_utf8(text).len()) + encode_utf8(text)
}

/// Calls `parity_scale_codec::Encode::encode` on a `String`. The codec
/// writes the byte length of the text as `Compact<u32>` and then its UTF-8
/// bytes; it panics on a text whose UTF-8 form is longer than `u32::MAX`
/// bytes, which `requires` leaves out.
#[verifier::external_body]
pub(crate) fn encode_text(text: &String) -> (bytes: Vec<u8>)
    requires
        encode_utf8(text@).len() <= u32::MAX,
    ensures
        bytes@ == scale_text(text@),
{
    parity_scale_codec::Encode::encode(text)
}

} // verus!
