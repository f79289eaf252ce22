//! A strict charset transcoding engine.
//!
//! The library converts text between a canonical Unicode representation and
//! byte-level character encodings (GBK, GB18030, Big5, Latin-1, UTF-8), and
//! directly between two such encodings.  Every conversion is strict: an
//! unresolvable encoding label or an unmappable character or byte sequence
//! fails the whole operation, and no partial output is ever returned.

mod charset;
mod latin1;
mod multibyte;
mod pipeline;
mod resolver;
mod utf8codec;

pub use charset::{Charset, CodecError, Direction};
pub use latin1::{
    latin1_char, latin1_decode, latin1_decoded, latin1_encode, latin1_encoded, latin1_fits,
    latin1_representable, lemma_latin1_round_trip,
};
pub use multibyte::{
    big5_decoded, big5_encoded, gb18030_decoded, gb18030_encoded, gbk_decoded, gbk_encoded,
};
pub use pipeline::{
    decode, decode_bytes, encode, encode_text, encode_with_buffer,
    lemma_latin1_pipeline_round_trip, lemma_utf8_round_trip, lemma_utf8_to_gbk_ascii_identity,
    spec_decode, spec_encode,
};
pub use resolver::{
    canon_label, label_eq_ci, lemma_resolve_case_insensitive, resolve, spec_resolve, upper_scalar,
};
pub use utf8codec::{utf8_decode, validate_utf8};
