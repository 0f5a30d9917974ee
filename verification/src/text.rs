//! Text handed to the server: UTF-8 bytes closed by one zero byte.

use vstd::prelude::*;
use vstd::utf8::*;
use vstd::string::*;
use crate::error::Error;

verus! {

/// The terminator character, which text for the server may not contain.
pub open spec fn has_terminator(text: Seq<char>) -> bool {
    text.contains('\0')
}

/// `text` as the server reads it: its UTF-8 encoding followed by a zero byte.
pub open spec fn terminated(text: Seq<char>) -> Seq<u8> {
    encode_utf8(text).push(0u8)
}

proof fn lemma_marked_byte_nonzero(low: u8)
    by (bit_vector)
    ensures
        0x80u8 | low != 0,
        0xC0u8 | low != 0,
        0xE0u8 | low != 0,
        0xF0u8 | low != 0,
{
}

proof fn lemma_single_byte_zero(scalar: u32)
    by (bit_vector)
    requires
        scalar <= 0x7F,
    ensures
        ((scalar & 0x7F) as u8 == 0) == (scalar == 0),
{
}

/// Only the scalar zero has a zero byte in its encoding.
proof fn lemma_scalar_zero_byte(scalar: u32)
    requires
        is_scalar(scalar),
    ensures
        encode_scalar(scalar).contains(0u8) <==> scalar == 0,
{
    let bytes = encode_scalar(scalar);
    if has_width_1_encoding(scalar) {
        lemma_single_byte_zero(scalar);
        if scalar == 0 {
            assert(bytes[0] == 0u8);
        }
    } else if has_width_2_encoding(scalar) {
        lemma_marked_byte_nonzero(((scalar >> 6) & 0x1F) as u8);
        lemma_marked_byte_nonzero((scalar & 0x3F) as u8);
    } else if has_width_3_encoding(scalar) {
        lemma_marked_byte_nonzero(((scalar >> 12) & 0x0F) as u8);
        lemma_marked_byte_nonzero(((scalar >> 6) & 0x3F) as u8);
        lemma_marked_byte_nonzero((scalar & 0x3F) as u8);
    } else {
        lemma_marked_byte_nonzero(((scalar >> 18) & 0x7) as u8);
        lemma_marked_byte_nonzero(((scalar >> 12) & 0x3F) as u8);
        lemma_marked_byte_nonzero(((scalar >> 6) & 0x3F) as u8);
        lemma_marked_byte_nonzero((scalar & 0x3F) as u8);
    }
}

/// The encoding of a text holds a zero byte exactly when the text holds the
/// terminator character: no other character's encoding has one.
pub proof fn lemma_terminator_in_encoding(text: Seq<char>)
    ensures
        encode_utf8(text).contains(0u8) <==> has_terminator(text),
    decreases text.len(),
{
    if text.len() > 0 {
        let head = encode_scalar(text[0] as u32);
        let rest = text.drop_first();
        let tail = encode_utf8(rest);
        lemma_terminator_in_encoding(rest);
        char_is_scalar(text[0]);
        lemma_scalar_zero_byte(text[0] as u32);
        if head.contains(0u8) {
            let i = choose|i: int| 0 <= i < head.len() && head[i] == 0u8;
            assert((head + tail)[i] == 0u8);
            char_u32_cast(text[0], 0u32);
            char_u32_cast('\0', 0u32);
        }
        if tail.contains(0u8) {
            let i = choose|i: int| 0 <= i < tail.len() && tail[i] == 0u8;
            assert((head + tail)[head.len() + i] == 0u8);
            let j = choose|j: int| 0 <= j < rest.len() && rest[j] == '\0';
            assert(text[j + 1] == '\0');
        }
        if (head + tail).contains(0u8) {
            let i = choose|i: int| 0 <= i < (head + tail).len() && (head + tail)[i] == 0u8;
            if i < head.len() {
                assert(head[i] == 0u8);
            } else {
                assert(tail[i - head.len()] == 0u8);
            }
        }
        if has_terminator(text) {
            let j = choose|j: int| 0 <= j < text.len() && text[j] == '\0';
            if j > 0 {
                assert(rest[j - 1] == '\0');
            }
        }
    }
}

/// Encodes `text` for the server. Text that holds the terminator character is
/// refused rather than cut short.
pub fn c_string(text: &str) -> (r: Result<Vec<u8>, Error>)
    ensures
        match r {
            Ok(bytes) => !has_terminator(text@) && bytes@ == terminated(text@),
            Err(e) => has_terminator(text@) && e == Error::Configuration,
        },
{
    let source = text.as_bytes();
    let mut bytes: Vec<u8> = Vec::new();
    let mut i: usize = 0;
    while i < source.len()
        invariant
            i <= source.len(),
            source@ == encode_utf8(text@),
            bytes@ == source@.subrange(0, i as int),
            forall|k: int| 0 <= k < i ==> source@[k] != 0u8,
        decreases source.len() - i,
    {
        let byte = source[i];
        if byte == 0 {
            proof {
                lemma_terminator_in_encoding(text@);
            }
            return Err(Error::Configuration);
        }
        bytes.push(byte);
        i += 1;
    }
    proof {
        lemma_terminator_in_encoding(text@);
        assert(bytes@ == source@);
    }
    bytes.push(0);
    Ok(bytes)
}

} // verus!
