//! The closed set of supported encoding definitions and the classified
//! conversion failures.

use vstd::prelude::*;

verus! {

/// One of the statically known encoding definitions.
///
/// The set is fixed at build time.  `Gb2312` labels resolve to `Gb18030` as a
/// forward-compatible alias (a deliberate policy: the superset accepts every
/// well-formed GB2312 sequence), so no separate GB2312 definition exists.
#[derive(Clone, Copy, PartialEq, Eq, Structural, Debug)]
pub enum Charset {
    Gbk,
    Gb18030,
    Big5,
    Latin1,
    Utf8,
}

/// Which half of a conversion was in progress when a failure arose.
#[derive(Clone, Copy, PartialEq, Eq, Structural, Debug)]
pub enum Direction {
    Decode,
    Encode,
}

/// A classified conversion failure.  Both kinds are caller-recoverable.
#[derive(PartialEq, Eq, Debug)]
pub enum CodecError {
    /// The given label does not resolve to any known encoding definition.
    /// Carries the literal label text.
    UnsupportedLabel { label: String },
    /// A strict encode or decode met a code point or byte sequence with no
    /// mapping in the given direction.  Carries the label and the direction.
    UnmappableCharacter { label: String, direction: Direction },
}

impl CodecError {
    /// True when this failure reports the given label as unsupported.
    pub open spec fn is_unsupported_label(&self, label: Seq<char>) -> bool {
        match self {
            CodecError::UnsupportedLabel { label: l } => l@ == label,
            _ => false,
        }
    }

    /// True when this failure reports unmappable data under the given label
    /// while converting in the given direction.
    pub open spec fn is_unmappable(&self, label: Seq<char>, direction: Direction) -> bool {
        match self {
            CodecError::UnmappableCharacter { label: l, direction: d } => l@ == label && *d
                == direction,
            _ => false,
        }
    }

    /// The label text carried by the failure.
    pub fn label(&self) -> (r: &String)
        ensures
            match self {
                CodecError::UnsupportedLabel { label: l } => r == l,
                CodecError::UnmappableCharacter { label: l, .. } => r == l,
            },
    {
        match self {
            CodecError::UnsupportedLabel { label } => label,
            CodecError::UnmappableCharacter { label, .. } => label,
        }
    }
}

} // verus!
