//! Strict Latin-1 (ISO-8859-1) conversion.
//!
//! Latin-1 maps every byte to the Unicode code point with the byte's value,
//! and a character is representable exactly when its scalar fits in one byte.
//! Both directions are verified against this pointwise model.

use vstd::prelude::*;
use vstd::string::StrSliceExecFns;
use vstd::utf8::*;

use crate::utf8codec::string_from_utf8;

verus! {

/// True when `c` has a Latin-1 representation.
pub open spec fn latin1_fits(c: char) -> bool {
    (c as u32) <= 0xff
}

/// The character a Latin-1 byte decodes to: the code point with the byte's
/// value.
pub open spec fn latin1_char(b: u8) -> char {
    (b as u32) as char
}

/// The text a Latin-1 byte payload decodes to.  Every byte is meaningful, so
/// a strict Latin-1 decode never fails.
pub open spec fn latin1_decoded(bytes: Seq<u8>) -> Seq<char> {
    bytes.map_values(|b: u8| latin1_char(b))
}

/// True when every character of the text has a Latin-1 representation.
pub open spec fn latin1_representable(text: Seq<char>) -> bool {
    forall|j: int| 0 <= j < text.len() ==> #[trigger] latin1_fits(text[j])
}

/// The Latin-1 byte payload of a text, or `None` when some character has no
/// Latin-1 representation.
pub open spec fn latin1_encoded(text: Seq<char>) -> Option<Seq<u8>> {
    if latin1_representable(text) {
        Some(text.map_values(|c: char| (c as u32) as u8))
    } else {
        None
    }
}

/// Strict Latin-1 encode: one byte per character, or `None` on the first
/// character with no Latin-1 representation.
pub fn latin1_encode(input: &str) -> (r: Option<Vec<u8>>)
    ensures
        match r {
            Some(v) => latin1_encoded(input@) == Some(v@),
            None => latin1_encoded(input@) is None,
        },
{
    let n = input.unicode_len();
    let mut out: Vec<u8> = Vec::new();
    let mut i: usize = 0;
    while i < n
        invariant
            0 <= i <= n,
            n == input@.len(),
            latin1_representable(input@.take(i as int)),
            out@ == input@.take(i as int).map_values(|c: char| (c as u32) as u8),
        decreases n - i,
    {
        let c = input.get_char(i);
        let u = c as u32;
        if u > 0xff {
            proof {
                assert(!latin1_fits(input@[i as int]));
                assert(!latin1_representable(input@));
            }
            return None;
        }
        out.push(u as u8);
        proof {
            assert(input@.take(i + 1 as int) =~= input@.take(i as int).push(input@[i as int]));
            assert(latin1_representable(input@.take(i + 1 as int)));
            assert(out@ =~= input@.take(i + 1 as int).map_values(|c: char| (c as u32) as u8));
        }
        i += 1;
    }
    proof {
        assert(input@.take(n as int) =~= input@);
    }
    Some(out)
}

/// Strict Latin-1 decode.  The verified loop assembles the UTF-8 encoding of
/// the decoded text, so the result is exactly the pointwise decoding.
pub fn latin1_decode(bytes: &[u8]) -> (r: String)
    ensures
        r@ == latin1_decoded(bytes@),
{
    let n = bytes.len();
    let mut out: Vec<u8> = Vec::new();
    let mut i: usize = 0;
    while i < n
        invariant
            0 <= i <= n,
            n == bytes@.len(),
            out@ == encode_utf8(latin1_decoded(bytes@.take(i as int))),
        decreases n - i,
    {
        let b = bytes[i];
        let ghost prefix = latin1_decoded(bytes@.take(i as int));
        let ghost c = latin1_char(b);
        proof {
            assert((c as u32) == b as u32);
            lemma_encode_utf8_push(prefix, c);
            assert(latin1_decoded(bytes@.take(i + 1 as int)) =~= prefix.push(c));
        }
        if b < 0x80 {
            proof {
                assert(((b as u32) & 0x7f) as u8 == b) by (bit_vector)
                    requires
                        b < 0x80,
                ;
                assert(encode_scalar(c as u32) =~= seq![b]);
            }
            out.push(b);
            proof {
                assert(out@ =~= encode_utf8(prefix) + encode_scalar(c as u32));
            }
        } else {
            let s = b as u32;
            let hi: u8 = 0xc0 | (((s >> 6) & 0x1f) as u8);
            let lo: u8 = 0x80 | ((s & 0x3f) as u8);
            proof {
                assert(encode_scalar(c as u32) =~= seq![hi, lo]);
            }
            out.push(hi);
            out.push(lo);
            proof {
                assert(out@ =~= encode_utf8(prefix) + encode_scalar(c as u32));
            }
        }
        i += 1;
    }
    proof {
        assert(bytes@.take(n as int) =~= bytes@);
        encode_utf8_valid_utf8(latin1_decoded(bytes@));
        encode_utf8_decode_utf8(latin1_decoded(bytes@));
    }
    string_from_utf8(out)
}

/// Appending one character extends the UTF-8 encoding by that character's
/// scalar encoding.
proof fn lemma_encode_utf8_push(chars: Seq<char>, c: char)
    ensures
        encode_utf8(chars.push(c)) == encode_utf8(chars) + encode_scalar(c as u32),
    decreases chars.len(),
{
    if chars.len() == 0 {
        assert(chars.push(c)[0] == c);
        assert(chars.push(c).drop_first() =~= chars);
        assert(encode_utf8(chars.push(c)) =~= encode_utf8(chars) + encode_scalar(c as u32));
    } else {
        assert(chars.push(c)[0] == chars[0]);
        assert(chars.push(c).drop_first() =~= chars.drop_first().push(c));
        lemma_encode_utf8_push(chars.drop_first(), c);
        assert(encode_utf8(chars.push(c)) =~= encode_utf8(chars) + encode_scalar(c as u32));
    }
}

/// Round trip: a text in which every character is Latin-1 representable is
/// recovered exactly by decoding its Latin-1 encoding.
pub proof fn lemma_latin1_round_trip(text: Seq<char>)
    requires
        latin1_representable(text),
    ensures
        latin1_encoded(text) matches Some(bytes) && latin1_decoded(bytes) == text,
{
    let bytes = latin1_encoded(text)->Some_0;
    assert forall|j: int| 0 <= j < text.len() implies latin1_decoded(bytes)[j] == text[j] by {
        assert(latin1_fits(text[j]));
        let u = text[j] as u32;
        assert(bytes[j] as u32 == u);
        char_u32_cast(text[j], u);
    }
    assert(latin1_decoded(bytes) =~= text);
}

} // verus!
