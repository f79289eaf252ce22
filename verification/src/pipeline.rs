//! The transcoding pipeline: strict `encode`, `decode` and the direct
//! byte-to-byte `encode_with_buffer`, each a pure function of its inputs and
//! the static encoding table.

use vstd::prelude::*;
use vstd::string::StrSliceExecFns;
use vstd::utf8::{
    decode_utf8, decode_utf8_encode_utf8, encode_utf8, encode_utf8_decode_utf8,
    encode_utf8_valid_utf8, is_ascii_chars, is_ascii_chars_encode_utf8, valid_utf8,
};

use crate::charset::{Charset, CodecError, Direction};
use crate::latin1::{latin1_decode, latin1_decoded, latin1_encode, latin1_encoded};
use crate::latin1::{latin1_representable, lemma_latin1_round_trip};
use crate::multibyte::{big5_decode, big5_decoded, big5_encode, big5_encoded};
use crate::multibyte::{gb18030_decode, gb18030_decoded, gb18030_encode, gb18030_encoded};
use crate::multibyte::{gbk_decode, gbk_decoded, gbk_encode, gbk_encoded};
use crate::resolver::{resolve, spec_resolve};
use crate::utf8codec::utf8_decode;

verus! {

/// The byte payload a text value encodes to under the given definition, or
/// `None` when some character has no representation there.
pub open spec fn spec_encode(cs: Charset, text: Seq<char>) -> Option<Seq<u8>> {
    match cs {
        Charset::Gbk => gbk_encoded(text),
        Charset::Gb18030 => gb18030_encoded(text),
        Charset::Big5 => big5_encoded(text),
        Charset::Latin1 => latin1_encoded(text),
        Charset::Utf8 => Some(encode_utf8(text)),
    }
}

/// The text value a byte payload decodes to under the given definition, or
/// `None` when some byte sequence is invalid there.
pub open spec fn spec_decode(cs: Charset, bytes: Seq<u8>) -> Option<Seq<char>> {
    match cs {
        Charset::Gbk => gbk_decoded(bytes),
        Charset::Gb18030 => gb18030_decoded(bytes),
        Charset::Big5 => big5_decoded(bytes),
        Charset::Latin1 => Some(latin1_decoded(bytes)),
        Charset::Utf8 => if valid_utf8(bytes) {
            Some(decode_utf8(bytes))
        } else {
            None
        },
    }
}

/// Encodes a text value under an already resolved encoding definition.
pub fn encode_text(cs: Charset, input: &str) -> (r: Option<Vec<u8>>)
    ensures
        match r {
            Some(v) => spec_encode(cs, input@) == Some(v@),
            None => spec_encode(cs, input@) is None,
        },
{
    match cs {
        Charset::Gbk => gbk_encode(input),
        Charset::Gb18030 => gb18030_encode(input),
        Charset::Big5 => big5_encode(input),
        Charset::Latin1 => latin1_encode(input),
        Charset::Utf8 => Some(input.as_bytes_vec()),
    }
}

/// Decodes a byte payload under an already resolved encoding definition.
pub fn decode_bytes(cs: Charset, input: &[u8]) -> (r: Option<String>)
    ensures
        match r {
            Some(s) => spec_decode(cs, input@) == Some(s@),
            None => spec_decode(cs, input@) is None,
        },
{
    match cs {
        Charset::Gbk => gbk_decode(input),
        Charset::Gb18030 => gb18030_decode(input),
        Charset::Big5 => big5_decode(input),
        Charset::Latin1 => Some(latin1_decode(input)),
        Charset::Utf8 => utf8_decode(input),
    }
}

/// Encodes text into the encoding named by `charset`.
///
/// The label is resolved first; an unrecognized label fails with
/// `UnsupportedLabel` carrying that label.  Encoding is strict: a character
/// with no representation in the target encoding fails the whole operation
/// with `UnmappableCharacter`, and no bytes are returned.
pub fn encode(input: &str, charset: &str) -> (r: Result<Vec<u8>, CodecError>)
    ensures
        match spec_resolve(charset@) {
            None => r matches Err(e) && e.is_unsupported_label(charset@),
            Some(cs) => match spec_encode(cs, input@) {
                Some(bytes) => r matches Ok(v) && v@ == bytes,
                None => r matches Err(e) && e.is_unmappable(charset@, Direction::Encode),
            },
        },
{
    match resolve(charset) {
        None => Err(CodecError::UnsupportedLabel { label: charset.to_owned() }),
        Some(cs) => match encode_text(cs, input) {
            Some(v) => Ok(v),
            None => Err(
                CodecError::UnmappableCharacter {
                    label: charset.to_owned(),
                    direction: Direction::Encode,
                },
            ),
        },
    }
}

/// Decodes a byte payload from the encoding named by `charset`.
///
/// The label is resolved first; an unrecognized label fails with
/// `UnsupportedLabel` carrying that label.  Decoding is strict: a byte
/// sequence invalid for the source encoding fails the whole operation with
/// `UnmappableCharacter`, and no text is returned.
pub fn decode(input: &[u8], charset: &str) -> (r: Result<String, CodecError>)
    ensures
        match spec_resolve(charset@) {
            None => r matches Err(e) && e.is_unsupported_label(charset@),
            Some(cs) => match spec_decode(cs, input@) {
                Some(text) => r matches Ok(s) && s@ == text,
                None => r matches Err(e) && e.is_unmappable(charset@, Direction::Decode),
            },
        },
{
    match resolve(charset) {
        None => Err(CodecError::UnsupportedLabel { label: charset.to_owned() }),
        Some(cs) => match decode_bytes(cs, input) {
            Some(s) => Ok(s),
            None => Err(
                CodecError::UnmappableCharacter {
                    label: charset.to_owned(),
                    direction: Direction::Decode,
                },
            ),
        },
    }
}

/// Converts a byte payload directly from one encoding to another.
///
/// Both labels are resolved first, the source label before the target one.
/// When the two labels resolve to the same encoding definition — also through
/// different aliases — the input bytes are returned unchanged without any
/// decode or encode work, so a same-encoding pass-through never fails on
/// content.  Otherwise the payload is strictly decoded from the source
/// encoding and strictly encoded into the target one, and a failure reports
/// the side and the label it arose under.
pub fn encode_with_buffer(input: &[u8], from_charset: &str, to_charset: &str) -> (r: Result<
    Vec<u8>,
    CodecError,
>)
    ensures
        match (spec_resolve(from_charset@), spec_resolve(to_charset@)) {
            (None, _) => r matches Err(e) && e.is_unsupported_label(from_charset@),
            (Some(_), None) => r matches Err(e) && e.is_unsupported_label(to_charset@),
            (Some(from_cs), Some(to_cs)) => if from_cs == to_cs {
                r matches Ok(v) && v@ == input@
            } else {
                match spec_decode(from_cs, input@) {
                    None => r matches Err(e) && e.is_unmappable(from_charset@, Direction::Decode),
                    Some(text) => match spec_encode(to_cs, text) {
                        None => r matches Err(e) && e.is_unmappable(
                            to_charset@,
                            Direction::Encode,
                        ),
                        Some(bytes) => r matches Ok(v) && v@ == bytes,
                    },
                }
            },
        },
{
    let from_cs = match resolve(from_charset) {
        Some(cs) => cs,
        None => {
            return Err(CodecError::UnsupportedLabel { label: from_charset.to_owned() });
        },
    };
    let to_cs = match resolve(to_charset) {
        Some(cs) => cs,
        None => {
            return Err(CodecError::UnsupportedLabel { label: to_charset.to_owned() });
        },
    };
    if from_cs == to_cs {
        return Ok(vstd::slice::slice_to_vec(input));
    }
    let text = match decode_bytes(from_cs, input) {
        Some(s) => s,
        None => {
            return Err(
                CodecError::UnmappableCharacter {
                    label: from_charset.to_owned(),
                    direction: Direction::Decode,
                },
            );
        },
    };
    match encode_text(to_cs, text.as_str()) {
        Some(v) => Ok(v),
        None => Err(
            CodecError::UnmappableCharacter {
                label: to_charset.to_owned(),
                direction: Direction::Encode,
            },
        ),
    }
}

/// Round trip through UTF-8: every text value is representable, and decoding
/// its encoding recovers it exactly.
pub proof fn lemma_utf8_round_trip(text: Seq<char>)
    ensures
        spec_encode(Charset::Utf8, text) matches Some(bytes) && spec_decode(Charset::Utf8, bytes)
            == Some(text),
{
    encode_utf8_valid_utf8(text);
    encode_utf8_decode_utf8(text);
}

/// Round trip through Latin-1: a text value in which every character is
/// Latin-1 representable is recovered exactly by decoding its encoding.
pub proof fn lemma_latin1_pipeline_round_trip(text: Seq<char>)
    requires
        latin1_representable(text),
    ensures
        spec_encode(Charset::Latin1, text) matches Some(bytes) && spec_decode(
            Charset::Latin1,
            bytes,
        ) == Some(text),
{
    lemma_latin1_round_trip(text);
}

/// Transcoding an all-ASCII UTF-8 payload into GBK returns the payload
/// byte-identical: ASCII is a common subset of both encodings.
pub proof fn lemma_utf8_to_gbk_ascii_identity(bytes: Seq<u8>)
    requires
        forall|j: int| 0 <= j < bytes.len() ==> bytes[j] < 0x80,
    ensures
        spec_decode(Charset::Utf8, bytes) matches Some(text) && spec_encode(Charset::Gbk, text)
            == Some(bytes),
{
    let text = bytes.map_values(|b: u8| (b as u32) as char);
    assert(is_ascii_chars(text)) by {
        assert forall|i: int| 0 <= i < text.len() implies '\0' <= #[trigger] text[i] <= '\u{7f}' by {
            assert(bytes[i] < 0x80);
        }
    }
    is_ascii_chars_encode_utf8(text);
    assert(encode_utf8(text) =~= bytes);
    encode_utf8_valid_utf8(text);
    encode_utf8_decode_utf8(text);
}

} // verus!
