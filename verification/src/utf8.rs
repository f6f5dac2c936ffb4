//! Validation of UTF-8.
//!
//! A reply is text, and bytes that are not valid UTF-8 are no reply at all.
//! This module decides whether bytes are valid UTF-8, against the definition
//! `valid_utf8` of vstd.

use vstd::prelude::*;
use vstd::utf8::{
    decode_first_codepoint, is_continuation_byte, length_of_first_codepoint,
    partial_valid_partial_invalid_utf8, partial_valid_utf8, partial_valid_utf8_extend,
    valid_first_scalar, valid_utf8,
};

verus! {

/// Says whether `b` has the form of a continuation byte, `10xxxxxx`.
fn is_continuation(b: u8) -> (continuation: bool)
    ensures
        continuation == is_continuation_byte(b),
{
    0x80 <= b && b <= 0xbf
}

/// Length of the well-formed encoding of one scalar value with which
/// `bytes` go on at the index `i`, or `None` if they go on with none.
fn first_scalar_len(bytes: &[u8], i: usize) -> (len: Option<usize>)
    requires
        i < bytes@.len(),
    ensures
        match len {
            Some(k) => valid_first_scalar(bytes@.subrange(i as int, bytes@.len() as int)) && k
                == length_of_first_codepoint(bytes@.subrange(i as int, bytes@.len() as int))
                && 1 <= k <= 4 && i + k <= bytes@.len(),
            None => !valid_first_scalar(bytes@.subrange(i as int, bytes@.len() as int)),
        },
{
    let n = bytes.len();
    let ghost rest = bytes@.subrange(i as int, n as int);
    let b0 = bytes[i];
    assert(rest[0] == b0);
    if b0 <= 0x7f {
        assert((b0 & 0x7f) as u32 <= 0x7f) by (bit_vector);
        Some(1)
    } else if 0xc0 <= b0 && b0 <= 0xdf {
        if n - i < 2 {
            return None;
        }
        let b1 = bytes[i + 1];
        assert(rest[1] == b1);
        if !is_continuation(b1) {
            return None;
        }
        let cp: u32 = (((b0 & 0x1f) as u32) << 6) | ((b1 & 0x3f) as u32);
        assert(cp == decode_first_codepoint(rest));
        assert(((((b0 & 0x1f) as u32) << 6) | ((b1 & 0x3f) as u32)) < 0x800) by (bit_vector);
        if cp >= 0x80 {
            Some(2)
        } else {
            None
        }
    } else if 0xe0 <= b0 && b0 <= 0xef {
        if n - i < 3 {
            return None;
        }
        let b1 = bytes[i + 1];
        let b2 = bytes[i + 2];
        assert(rest[1] == b1 && rest[2] == b2);
        if !is_continuation(b1) || !is_continuation(b2) {
            return None;
        }
        let cp: u32 = (((b0 & 0x0f) as u32) << 12) | (((b1 & 0x3f) as u32) << 6) | ((b2
            & 0x3f) as u32);
        assert(cp == decode_first_codepoint(rest));
        if cp >= 0x800 && !(0xd800 <= cp && cp <= 0xdfff) {
            Some(3)
        } else {
            None
        }
    } else if 0xf0 <= b0 && b0 <= 0xf7 {
        if n - i < 4 {
            return None;
        }
        let b1 = bytes[i + 1];
        let b2 = bytes[i + 2];
        let b3 = bytes[i + 3];
        assert(rest[1] == b1 && rest[2] == b2 && rest[3] == b3);
        if !is_continuation(b1) || !is_continuation(b2) || !is_continuation(b3) {
            return None;
        }
        let cp: u32 = (((b0 & 0x07) as u32) << 18) | (((b1 & 0x3f) as u32) << 12) | (((b2
            & 0x3f) as u32) << 6) | ((b3 & 0x3f) as u32);
        assert(cp == decode_first_codepoint(rest));
        if 0x10000 <= cp && cp <= 0x10ffff {
            Some(4)
        } else {
            None
        }
    } else {
        None
    }
}

/// Says whether `bytes` are valid UTF-8.
pub fn is_utf8(bytes: &[u8]) -> (valid: bool)
    ensures
        valid == valid_utf8(bytes@),
{
    let n = bytes.len();
    let mut i: usize = 0;
    assert(bytes@.subrange(0, 0) =~= Seq::<u8>::empty());
    while i < n
        invariant
            0 <= i <= n,
            n == bytes@.len(),
            partial_valid_utf8(bytes@, i as int),
        decreases n - i,
    {
        match first_scalar_len(bytes, i) {
            None => {
                proof {
                    partial_valid_partial_invalid_utf8(bytes@, i as int);
                }
                return false;
            },
            Some(k) => {
                proof {
                    partial_valid_utf8_extend(bytes@, i as int);
                }
                i += k;
            },
        }
    }
    assert(bytes@.subrange(0, n as int) =~= bytes@);
    true
}

} // verus!
