//! Laying out text for the native boundary.
//!
//! The native layer reads text as a run of bytes that ends at the first zero
//! byte. A text with a zero byte inside would be cut short on the other side,
//! so it is refused here.

use vstd::prelude::*;
use vstd::string::*;
use vstd::utf8::*;
use crate::internal_error::{VLCError, VLCResult};

verus! {

/// Whether a zero byte occurs anywhere in `bytes`.
pub open spec fn has_nul(bytes: Seq<u8>) -> bool {
    exists|i: int| 0 <= i < bytes.len() && bytes[i] == 0u8
}

/// Whether the character with the number zero occurs anywhere in `text`.
pub open spec fn has_nul_char(text: Seq<char>) -> bool {
    exists|i: int| 0 <= i < text.len() && text[i] == '\0'
}

/// The boundary form of `bytes`: the same bytes, then the zero byte that ends
/// them.
pub open spec fn boundary_string(bytes: Seq<u8>) -> Seq<u8> {
    bytes.push(0u8)
}

/// What encoding `bytes` gives: the boundary form, unless a zero byte stands
/// inside.
pub open spec fn terminated(bytes: Seq<u8>) -> Option<Seq<u8>> {
    if has_nul(bytes) {
        None
    } else {
        Some(boundary_string(bytes))
    }
}

/// What encoding a path gives: the boundary form of its text, unless it has no
/// text form or a zero byte stands inside.
pub open spec fn path_terminated(val: Option<&str>) -> Option<Seq<u8>> {
    match val {
        Some(text) => terminated(text.spec_bytes()),
        None => None,
    }
}

/// The text that the native layer gave, where `text` is `None` if it gave
/// none: the text itself, and the empty text in place of none.
pub open spec fn text_or_empty(text: Option<String>) -> Seq<char> {
    match text {
        Some(given) => given@,
        None => Seq::empty(),
    }
}

/// The text that the native layer gave as a text of this side's own, empty
/// where it gave none.
pub fn owned_text(text: Option<String>) -> (out: String)
    ensures
        out@ == text_or_empty(text),
{
    match text {
        Some(given) => given,
        None => String::new(),
    }
}

/// Copies `bytes` into a buffer that ends in a zero byte. Gives nothing where
/// `bytes` holds a zero byte itself.
pub fn terminate(bytes: &[u8]) -> (out: Option<Vec<u8>>)
    ensures
        match out {
            Some(buffer) => terminated(bytes@) == Some(buffer@),
            None => terminated(bytes@) is None,
        },
{
    let mut buffer: Vec<u8> = Vec::new();
    let mut i: usize = 0;
    while i < bytes.len()
        invariant
            i <= bytes.len(),
            buffer@ == bytes@.subrange(0, i as int),
            forall|j: int| 0 <= j < i ==> bytes@[j] != 0u8,
        decreases bytes.len() - i,
    {
        let byte: u8 = bytes[i];
        if byte == 0 {
            return None;
        }
        buffer.push(byte);
        assert(buffer@ == bytes@.subrange(0, i + 1));
        i += 1;
    }
    assert(bytes@.subrange(0, i as int) == bytes@);
    buffer.push(0);
    Some(buffer)
}

/// Encodes a string for the native layer.
pub fn expect_cstring(val: &str) -> (out: VLCResult<Vec<u8>>)
    ensures
        match out {
            Ok(buffer) => terminated(val.spec_bytes()) == Some(buffer@),
            Err(e) => terminated(val.spec_bytes()) is None && e == VLCError::StrFFI,
        },
        out is Err <==> has_nul_char(val@),
{
    proof {
        nul_byte_is_nul_char(val@);
    }
    match terminate(val.as_bytes()) {
        Some(buffer) => Ok(buffer),
        None => Err(VLCError::StrFFI),
    }
}

/// Encodes a path for the native layer. `val` is the path as text, and `None`
/// where the path has no text form.
pub fn expect_cpath(val: Option<&str>) -> (out: VLCResult<Vec<u8>>)
    ensures
        match out {
            Ok(buffer) => path_terminated(val) == Some(buffer@),
            Err(e) => path_terminated(val) is None && e == VLCError::PathFFI,
        },
{
    match val {
        Some(text) => match terminate(text.as_bytes()) {
            Some(buffer) => Ok(buffer),
            None => Err(VLCError::PathFFI),
        },
        None => Err(VLCError::PathFFI),
    }
}

/// A boundary string says exactly what was encoded: it holds one zero byte,
/// the last one, and the bytes before it are the input unchanged. Nothing is
/// cut off and nothing is added.
pub proof fn boundary_string_is_faithful(bytes: Seq<u8>)
    requires
        !has_nul(bytes),
    ensures
        boundary_string(bytes).len() == bytes.len() + 1,
        boundary_string(bytes).drop_last() == bytes,
        boundary_string(bytes).last() == 0u8,
        forall|i: int|
            0 <= i < boundary_string(bytes).len() && boundary_string(bytes)[i] == 0u8 ==> i
                == bytes.len(),
{
    assert(boundary_string(bytes).drop_last() =~= bytes);
}

/// Two inputs with the same boundary string are the same input.
pub proof fn boundary_string_is_injective(a: Seq<u8>, b: Seq<u8>)
    requires
        boundary_string(a) == boundary_string(b),
    ensures
        a == b,
{
    assert(boundary_string(a).drop_last() =~= a);
    assert(boundary_string(b).drop_last() =~= b);
}

/// An input with a zero byte inside has no boundary string at all.
pub proof fn embedded_nul_is_refused(bytes: Seq<u8>, at: int)
    requires
        0 <= at < bytes.len(),
        bytes[at] == 0u8,
    ensures
        terminated(bytes) is None,
{
}

/// A zero byte stands in two runs of bytes put together where it stands in one
/// of them.
proof fn nul_in_either(a: Seq<u8>, b: Seq<u8>)
    ensures
        has_nul(a + b) <==> has_nul(a) || has_nul(b),
{
    if has_nul(a) {
        let i = choose|i: int| 0 <= i < a.len() && a[i] == 0u8;
        assert((a + b)[i] == 0u8);
    }
    if has_nul(b) {
        let i = choose|i: int| 0 <= i < b.len() && b[i] == 0u8;
        assert((a + b)[a.len() + i] == 0u8);
    }
    if has_nul(a + b) {
        let i = choose|i: int| 0 <= i < (a + b).len() && (a + b)[i] == 0u8;
        if i < a.len() {
            assert(a[i] == 0u8);
        } else {
            assert(b[i - a.len()] == 0u8);
        }
    }
}

/// Of all characters, only the one with the number zero has a zero byte in
/// its encoding.
proof fn nul_in_scalar(scalar: u32)
    requires
        is_scalar(scalar),
    ensures
        has_nul(encode_scalar(scalar)) <==> scalar == 0,
{
    let bytes = encode_scalar(scalar);
    assert(scalar <= 0x7F ==> (((scalar & 0x7F) as u8) == 0u8 <==> scalar == 0))
        by (bit_vector);
    assert((0xC0u8 | ((scalar >> 6) & 0x1F) as u8) != 0u8) by (bit_vector);
    assert((0xE0u8 | ((scalar >> 12) & 0x0F) as u8) != 0u8) by (bit_vector);
    assert((0xF0u8 | ((scalar >> 18) & 0x7) as u8) != 0u8) by (bit_vector);
    assert((0x80u8 | (scalar & 0x3F) as u8) != 0u8) by (bit_vector);
    assert((0x80u8 | ((scalar >> 6) & 0x3F) as u8) != 0u8) by (bit_vector);
    assert((0x80u8 | ((scalar >> 12) & 0x3F) as u8) != 0u8) by (bit_vector);
    if scalar == 0 {
        assert(bytes[0] == 0u8);
    }
    if has_nul(bytes) {
        let i = choose|i: int| 0 <= i < bytes.len() && bytes[i] == 0u8;
        assert(bytes[i] == 0u8);
    }
}

/// A text has a zero byte in its encoded form exactly where it holds the
/// character with the number zero. So a text is refused exactly where that
/// character occurs in it, at whatever place.
pub proof fn nul_byte_is_nul_char(text: Seq<char>)
    ensures
        has_nul(encode_utf8(text)) <==> has_nul_char(text),
        terminated(encode_utf8(text)) is None <==> has_nul_char(text),
    decreases text.len(),
{
    if text.len() > 0 {
        let rest = text.drop_first();
        nul_byte_is_nul_char(rest);
        let first = text[0];
        let scalar = first as u32;
        char_is_scalar(first);
        nul_in_scalar(scalar);
        nul_in_either(encode_scalar(scalar), encode_utf8(rest));
        assert(scalar == 0 <==> first == '\0') by {
            char_u32_cast(first, scalar);
            char_u32_cast('\0', 0u32);
        }
        if has_nul_char(rest) {
            let i = choose|i: int| 0 <= i < rest.len() && rest[i] == '\0';
            assert(text[i + 1] == '\0');
        }
        if has_nul_char(text) {
            let i = choose|i: int| 0 <= i < text.len() && text[i] == '\0';
            if i > 0 {
                assert(rest[i - 1] == '\0');
            }
        }
    }
}

} // verus!
