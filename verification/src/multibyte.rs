//! The table-driven multi-byte encodings: GBK, GB18030 and Big5.
//!
//! Their mapping tables are supplied by the `encoding` crate and are far too
//! large to restate, so each strict conversion is named as an opaque function
//! of its input alone and performed behind a trusted call.  One fact is
//! stated beyond the names, because each encoder's source shows it plainly:
//! every character below U+0080 encodes to the single byte with its own
//! value, so all-ASCII text encodes to its ASCII bytes under all three.

use vstd::prelude::*;
use vstd::utf8::{encode_utf8, is_ascii_chars};

verus! {

/// What GBK's strict encoder returns on text with a non-ASCII character.
pub uninterp spec fn gbk_encoded_raw(text: Seq<char>) -> Option<Seq<u8>>;

/// What GB18030's strict encoder returns on text with a non-ASCII character.
pub uninterp spec fn gb18030_encoded_raw(text: Seq<char>) -> Option<Seq<u8>>;

/// What Big5's strict encoder returns on text with a non-ASCII character.
pub uninterp spec fn big5_encoded_raw(text: Seq<char>) -> Option<Seq<u8>>;

/// The text GBK's strict decoder returns, or `None` on an invalid sequence.
pub uninterp spec fn gbk_decoded(bytes: Seq<u8>) -> Option<Seq<char>>;

/// The text GB18030's strict decoder returns, or `None` on an invalid
/// sequence.
pub uninterp spec fn gb18030_decoded(bytes: Seq<u8>) -> Option<Seq<char>>;

/// The text Big5's strict decoder returns, or `None` on an invalid sequence.
pub uninterp spec fn big5_decoded(bytes: Seq<u8>) -> Option<Seq<char>>;

/// The GBK byte payload of a text: for all-ASCII text, its ASCII bytes (which
/// equal its UTF-8 bytes); otherwise the table-driven result.
pub open spec fn gbk_encoded(text: Seq<char>) -> Option<Seq<u8>> {
    if is_ascii_chars(text) {
        Some(encode_utf8(text))
    } else {
        gbk_encoded_raw(text)
    }
}

/// The GB18030 byte payload of a text, ASCII-compatible as in [`gbk_encoded`].
pub open spec fn gb18030_encoded(text: Seq<char>) -> Option<Seq<u8>> {
    if is_ascii_chars(text) {
        Some(encode_utf8(text))
    } else {
        gb18030_encoded_raw(text)
    }
}

/// The Big5 byte payload of a text, ASCII-compatible as in [`gbk_encoded`].
pub open spec fn big5_encoded(text: Seq<char>) -> Option<Seq<u8>> {
    if is_ascii_chars(text) {
        Some(encode_utf8(text))
    } else {
        big5_encoded_raw(text)
    }
}

/// Relies on `encoding::all::GBK`'s strict `encode`: the result is a function
/// of the characters alone, and its encoder writes each character below
/// U+0080 as the byte with the character's value, never failing on it.
#[verifier::external_body]
pub(crate) fn gbk_encode(input: &str) -> (r: Option<Vec<u8>>)
    ensures
        match r {
            Some(v) => is_ascii_chars(input@) ==> v@ == encode_utf8(input@),
            None => !is_ascii_chars(input@),
        },
        match r {
            Some(v) => !is_ascii_chars(input@) ==> gbk_encoded_raw(input@) == Some(v@),
            None => gbk_encoded_raw(input@) is None,
        },
{
    match encoding::types::Encoding::encode(
        encoding::all::GBK,
        input,
        encoding::types::EncoderTrap::Strict,
    ) {
        Ok(v) => Some(v),
        Err(_) => None,
    }
}

/// Relies on `encoding::all::GB18030`'s strict `encode`: the result is a
/// function of the characters alone, ASCII-compatible as in [`gbk_encode`].
#[verifier::external_body]
pub(crate) fn gb18030_encode(input: &str) -> (r: Option<Vec<u8>>)
    ensures
        match r {
            Some(v) => is_ascii_chars(input@) ==> v@ == encode_utf8(input@),
            None => !is_ascii_chars(input@),
        },
        match r {
            Some(v) => !is_ascii_chars(input@) ==> gb18030_encoded_raw(input@) == Some(v@),
            None => gb18030_encoded_raw(input@) is None,
        },
{
    match encoding::types::Encoding::encode(
        encoding::all::GB18030,
        input,
        encoding::types::EncoderTrap::Strict,
    ) {
        Ok(v) => Some(v),
        Err(_) => None,
    }
}

/// Relies on `encoding::all::BIG5_2003`'s strict `encode`: the result is a
/// function of the characters alone, ASCII-compatible as in [`gbk_encode`].
#[verifier::external_body]
pub(crate) fn big5_encode(input: &str) -> (r: Option<Vec<u8>>)
    ensures
        match r {
            Some(v) => is_ascii_chars(input@) ==> v@ == encode_utf8(input@),
            None => !is_ascii_chars(input@),
        },
        match r {
            Some(v) => !is_ascii_chars(input@) ==> big5_encoded_raw(input@) == Some(v@),
            None => big5_encoded_raw(input@) is None,
        },
{
    match encoding::types::Encoding::encode(
        encoding::all::BIG5_2003,
        input,
        encoding::types::EncoderTrap::Strict,
    ) {
        Ok(v) => Some(v),
        Err(_) => None,
    }
}

/// Relies on `encoding::all::GBK`'s strict `decode`: the result is a function
/// of the bytes alone.
#[verifier::external_body]
pub(crate) fn gbk_decode(bytes: &[u8]) -> (r: Option<String>)
    ensures
        match r {
            Some(s) => gbk_decoded(bytes@) == Some(s@),
            None => gbk_decoded(bytes@) is None,
        },
{
    match encoding::types::Encoding::decode(
        encoding::all::GBK,
        bytes,
        encoding::types::DecoderTrap::Strict,
    ) {
        Ok(s) => Some(s),
        Err(_) => None,
    }
}

/// Relies on `encoding::all::GB18030`'s strict `decode`: the result is a
/// function of the bytes alone.
#[verifier::external_body]
pub(crate) fn gb18030_decode(bytes: &[u8]) -> (r: Option<String>)
    ensures
        match r {
            Some(s) => gb18030_decoded(bytes@) == Some(s@),
            None => gb18030_decoded(bytes@) is None,
        },
{
    match encoding::types::Encoding::decode(
        encoding::all::GB18030,
        bytes,
        encoding::types::DecoderTrap::Strict,
    ) {
        Ok(s) => Some(s),
        Err(_) => None,
    }
}

/// Relies on `encoding::all::BIG5_2003`'s strict `decode`: the result is a
/// function of the bytes alone.
#[verifier::external_body]
pub(crate) fn big5_decode(bytes: &[u8]) -> (r: Option<String>)
    ensures
        match r {
            Some(s) => big5_decoded(bytes@) == Some(s@),
            None => big5_decoded(bytes@) is None,
        },
{
    match encoding::types::Encoding::decode(
        encoding::all::BIG5_2003,
        bytes,
        encoding::types::DecoderTrap::Strict,
    ) {
        Ok(s) => Some(s),
        Err(_) => None,
    }
}

} // verus!
