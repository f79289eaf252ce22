//! Strict UTF-8 conversion between byte payloads and text values.
//!
//! Validation is performed by verified code against the UTF-8 model of
//! `vstd::utf8`; only the final reassembly of checked bytes into a `String`
//! is delegated to the standard library.

use vstd::prelude::*;
use vstd::utf8::*;

verus! {

/// Rebuilds a `String` from bytes already known to be valid UTF-8.
///
/// Relies on `String::from_utf8`: on bytes that are a valid UTF-8 encoding it
/// returns the string of exactly the characters those bytes encode.
#[verifier::external_body]
pub(crate) fn string_from_utf8(bytes: Vec<u8>) -> (r: String)
    requires
        valid_utf8(bytes@),
    ensures
        r@ == decode_utf8(bytes@),
{
    match String::from_utf8(bytes) {
        Ok(s) => s,
        Err(_) => String::new(),
    }
}

/// Checks whether the bytes form a valid UTF-8 encoding: every scalar is
/// well-formed, not overlong, and outside the surrogate range.
pub fn validate_utf8(bytes: &[u8]) -> (r: bool)
    ensures
        r == valid_utf8(bytes@),
{
    let n = bytes.len();
    let mut i: usize = 0;
    while i < n
        invariant
            0 <= i <= n,
            n == bytes@.len(),
            partial_valid_utf8(bytes@, i as int),
        decreases n - i,
    {
        let ghost suffix = bytes@.subrange(i as int, n as int);
        proof {
            assert forall|j: int| 0 <= j < suffix.len() implies suffix[j] == bytes@[i + j] by {}
            assert(suffix.len() == n - i);
        }
        let b0 = bytes[i];
        let width: usize;
        if b0 < 0x80 {
            proof {
                assert((b0 & 0x7f) == b0) by (bit_vector)
                    requires
                        b0 < 0x80,
                ;
            }
            width = 1;
        } else if 0xc0 <= b0 && b0 <= 0xdf {
            if n - i < 2 || !is_continuation(bytes[i + 1]) {
                proof {
                    lemma_prefix_invalid(bytes@, i as int);
                }
                return false;
            }
            let b1 = bytes[i + 1];
            let cp: u32 = (((b0 & 0x1f) as u32) << 6) | ((b1 & 0x3f) as u32);
            if cp < 0x80 {
                proof {
                    lemma_prefix_invalid(bytes@, i as int);
                }
                return false;
            }
            proof {
                assert((((b0 & 0x1f) as u32) << 6) | ((b1 & 0x3f) as u32) <= 0x7ff)
                    by (bit_vector);
                assert(valid_first_scalar(suffix));
            }
            width = 2;
        } else if 0xe0 <= b0 && b0 <= 0xef {
            if n - i < 3 || !is_continuation(bytes[i + 1]) || !is_continuation(bytes[i + 2]) {
                proof {
                    lemma_prefix_invalid(bytes@, i as int);
                }
                return false;
            }
            let cp: u32 = (((b0 & 0x0f) as u32) << 12) | (((bytes[i + 1] & 0x3f) as u32) << 6) | ((
            bytes[i + 2] & 0x3f) as u32);
            if cp < 0x800 || (0xd800 <= cp && cp <= 0xdfff) {
                proof {
                    lemma_prefix_invalid(bytes@, i as int);
                }
                return false;
            }
            width = 3;
        } else if 0xf0 <= b0 && b0 <= 0xf7 {
            if n - i < 4 || !is_continuation(bytes[i + 1]) || !is_continuation(bytes[i + 2])
                || !is_continuation(bytes[i + 3]) {
                proof {
                    lemma_prefix_invalid(bytes@, i as int);
                }
                return false;
            }
            let cp: u32 = (((b0 & 0x07) as u32) << 18) | (((bytes[i + 1] & 0x3f) as u32) << 12) | ((
            (bytes[i + 2] & 0x3f) as u32) << 6) | ((bytes[i + 3] & 0x3f) as u32);
            if cp < 0x10000 || cp > 0x10ffff {
                proof {
                    lemma_prefix_invalid(bytes@, i as int);
                }
                return false;
            }
            width = 4;
        } else {
            proof {
                lemma_prefix_invalid(bytes@, i as int);
            }
            return false;
        }
        proof {
            assert(valid_first_scalar(suffix));
            assert(length_of_first_scalar(suffix) == width as int);
            partial_valid_utf8_extend(bytes@, i as int);
        }
        i += width;
    }
    proof {
        assert(bytes@.subrange(0, n as int) =~= bytes@);
    }
    true
}

/// Checks one continuation byte.
fn is_continuation(b: u8) -> (r: bool)
    ensures
        r == is_continuation_byte(b),
{
    0x80 <= b && b <= 0xbf
}

/// From a valid prefix and an invalid first scalar at its end, the whole
/// sequence is invalid.
proof fn lemma_prefix_invalid(bytes: Seq<u8>, i: int)
    requires
        0 <= i < bytes.len(),
        partial_valid_utf8(bytes, i),
        !valid_first_scalar(bytes.subrange(i, bytes.len() as int)),
    ensures
        !valid_utf8(bytes),
{
    partial_valid_partial_invalid_utf8(bytes, i);
}

/// Strict UTF-8 decode: the text encoded by the bytes, or `None` when the
/// bytes are not a valid UTF-8 encoding.
pub fn utf8_decode(bytes: &[u8]) -> (r: Option<String>)
    ensures
        match r {
            Some(s) => valid_utf8(bytes@) && s@ == decode_utf8(bytes@),
            None => !valid_utf8(bytes@),
        },
{
    if validate_utf8(bytes) {
        let v = vstd::slice::slice_to_vec(bytes);
        Some(string_from_utf8(v))
    } else {
        None
    }
}

} // verus!
