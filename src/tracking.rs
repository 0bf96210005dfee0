//! Tracking identifiers: random version-4 UUIDs in their hyphenated text form.

use vstd::prelude::*;

verus! {

/// `c` is a lowercase hexadecimal digit.
pub open spec fn is_lower_hex(c: char) -> bool {
    ('0' <= c && c <= '9') || ('a' <= c && c <= 'f')
}

/// `i` is one of the four hyphen positions of a hyphenated UUID.
pub open spec fn is_hyphen_position(i: int) -> bool {
    i == 8 || i == 13 || i == 18 || i == 23
}

/// `s` is the lowercase hyphenated text of a random (version 4, RFC 4122
/// variant) UUID: 32 hex digits in groups of 8-4-4-4-12, version digit `4`,
/// variant digit one of `8`, `9`, `a`, `b`.
pub open spec fn is_uuid_v4_text(s: Seq<char>) -> bool {
    &&& s.len() == 36
    &&& forall|i: int| 0 <= i < 36 ==> (#[trigger] is_hyphen_position(i) <==> s[i] == '-')
    &&& forall|i: int| 0 <= i < 36 && !is_hyphen_position(i) ==> #[trigger] is_lower_hex(s[i])
    &&& s[14] == '4'
    &&& (s[19] == '8' || s[19] == '9' || s[19] == 'a' || s[19] == 'b')
}

/// Relies on uuid::Uuid::new_v4, which masks a random 128-bit value to set
/// version 4 and the RFC 4122 variant, and on its `Display`, which writes the
/// lowercase hyphenated form.
#[verifier::external_body]
fn random_uuid_text() -> (r: String)
    ensures
        is_uuid_v4_text(r@),
{
    uuid::Uuid::new_v4().to_string()
}

/// A fresh tracking identifier; each call draws a new random UUID.
pub fn create_tracking_id() -> (r: String)
    ensures
        is_uuid_v4_text(r@),
{
    random_uuid_text()
}

} // verus!
