//! Account and resource identifiers: the shape an identifier must have, a
//! checker for it, and a source of fresh identifiers.

use vstd::prelude::*;

verus! {

/// A hexadecimal digit, in either case.
pub open spec fn is_hex_digit(c: char) -> bool {
    ('0' <= c && c <= '9') || ('a' <= c && c <= 'f') || ('A' <= c && c <= 'F')
}

/// The character an identifier must hold at position `i`: a hyphen at the four
/// group separators, a hexadecimal digit everywhere else.
pub open spec fn is_id_char(c: char, i: int) -> bool {
    if i == 8 || i == 13 || i == 18 || i == 23 {
        c == '-'
    } else {
        is_hex_digit(c)
    }
}

/// A well-formed account identifier: the 36-character hyphenated form of a
/// UUID. The identity resolver rejects claims whose identifier fails this
/// shape check.
pub open spec fn is_uuid_str(s: Seq<char>) -> bool {
    s.len() == 36 && forall|i: int| 0 <= i < 36 ==> is_id_char(#[trigger] s[i], i)
}

/// Decides [`is_uuid_str`] for a given string.
pub fn check_id_shape(s: &str) -> (b: bool)
    ensures
        b == is_uuid_str(s@),
{
    let len = s.unicode_len();
    if len != 36 {
        return false;
    }
    let mut i: usize = 0;
    while i < 36
        invariant
            0 <= i <= 36,
            s@.len() == 36,
            forall|j: int| 0 <= j < i ==> is_id_char(#[trigger] s@[j], j),
        decreases 36 - i,
    {
        let c = s.get_char(i);
        let ok = if i == 8 || i == 13 || i == 18 || i == 23 {
            c == '-'
        } else {
            ('0' <= c && c <= '9') || ('a' <= c && c <= 'f') || ('A' <= c && c <= 'F')
        };
        if !ok {
            return false;
        }
        i += 1;
    }
    true
}

/// Relies on uuid's `Uuid::new_v4` and its `Display` form: a fresh random
/// version-4 UUID rendered as the 36-character lowercase hyphenated string.
/// Nothing is assumed about which identifier comes back, only its shape.
#[verifier::external_body]
pub(crate) fn new_id() -> (r: String)
    ensures
        is_uuid_str(r@),
{
    uuid::Uuid::new_v4().to_string()
}

} // verus!
