//! The encoding resolver: maps a free-form label to one encoding definition.
//!
//! Matching is case-insensitive over ASCII letters and admits no partial or
//! fuzzy matches.  The accepted labels are the canonical names of the
//! supported definitions and their common aliases; "GB2312" resolves to the
//! GB18030 definition as a forward-compatible alias.

use vstd::prelude::*;
use vstd::string::StrSliceExecFns;

use crate::charset::Charset;

verus! {

/// The Unicode scalar of `c`, with ASCII lower-case letters folded to their
/// upper-case counterparts.  Non-ASCII characters are left untouched, so two
/// labels match only when they differ in ASCII letter case alone.
pub open spec fn upper_scalar(c: char) -> u32 {
    let u = c as u32;
    if 0x61 <= u && u <= 0x7a {
        (u - 0x20) as u32
    } else {
        u
    }
}

/// The canonical form of a label: its characters as scalars with ASCII
/// letters folded to upper case.
pub open spec fn canon_label(label: Seq<char>) -> Seq<u32> {
    label.map_values(|c: char| upper_scalar(c))
}

/// The encoding definition a label resolves to, if any.
///
/// A label matches when its canonical form equals that of one of the accepted
/// names.  The resolver is a pure function of the label and this closed table.
pub open spec fn spec_resolve(label: Seq<char>) -> Option<Charset> {
    let up = canon_label(label);
    if up == canon_label("GBK"@) {
        Some(Charset::Gbk)
    } else if up == canon_label("GB2312"@) || up == canon_label("GB18030"@) {
        Some(Charset::Gb18030)
    } else if up == canon_label("BIG5"@) {
        Some(Charset::Big5)
    } else if up == canon_label("ISO-8859-1"@) || up == canon_label("ISO88591"@) || up
        == canon_label("LATIN1"@) {
        Some(Charset::Latin1)
    } else if up == canon_label("UTF-8"@) || up == canon_label("UTF8"@) {
        Some(Charset::Utf8)
    } else {
        None
    }
}

/// Folds one character to its canonical scalar.
fn upper_scalar_exec(c: char) -> (r: u32)
    ensures
        r == upper_scalar(c),
{
    let u = c as u32;
    if 0x61 <= u && u <= 0x7a {
        u - 0x20
    } else {
        u
    }
}

/// Compares two labels for equality up to ASCII letter case.
pub fn label_eq_ci(a: &str, b: &str) -> (r: bool)
    ensures
        r == (canon_label(a@) == canon_label(b@)),
{
    let n = a.unicode_len();
    if n != b.unicode_len() {
        proof {
            assert(canon_label(a@).len() != canon_label(b@).len());
        }
        return false;
    }
    let mut i: usize = 0;
    while i < n
        invariant
            0 <= i <= n,
            n == a@.len(),
            n == b@.len(),
            forall|j: int| 0 <= j < i ==> canon_label(a@)[j] == canon_label(b@)[j],
        decreases n - i,
    {
        let ca = a.get_char(i);
        let cb = b.get_char(i);
        if upper_scalar_exec(ca) != upper_scalar_exec(cb) {
            proof {
                assert(canon_label(a@)[i as int] != canon_label(b@)[i as int]);
            }
            return false;
        }
        i += 1;
    }
    proof {
        assert(canon_label(a@) =~= canon_label(b@));
    }
    true
}

/// Resolves a label to an encoding definition, or reports that the label is
/// unsupported.
pub fn resolve(label: &str) -> (r: Option<Charset>)
    ensures
        r == spec_resolve(label@),
{
    if label_eq_ci(label, "GBK") {
        Some(Charset::Gbk)
    } else if label_eq_ci(label, "GB2312") || label_eq_ci(label, "GB18030") {
        Some(Charset::Gb18030)
    } else if label_eq_ci(label, "BIG5") {
        Some(Charset::Big5)
    } else if label_eq_ci(label, "ISO-8859-1") || label_eq_ci(label, "ISO88591") || label_eq_ci(
        label,
        "LATIN1",
    ) {
        Some(Charset::Latin1)
    } else if label_eq_ci(label, "UTF-8") || label_eq_ci(label, "UTF8") {
        Some(Charset::Utf8)
    } else {
        None
    }
}

/// Label case-insensitivity: two labels with the same canonical form resolve
/// to the same encoding definition.
pub proof fn lemma_resolve_case_insensitive(l1: Seq<char>, l2: Seq<char>)
    requires
        canon_label(l1) == canon_label(l2),
    ensures
        spec_resolve(l1) == spec_resolve(l2),
{
}

} // verus!
