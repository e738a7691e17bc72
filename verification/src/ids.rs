//! Random identifiers, drawn from version-4 UUIDs.

use vstd::prelude::*;

verus! {

pub open spec fn is_lower_hex_digit(c: char) -> bool {
    ('0' <= c && c <= '9') || ('a' <= c && c <= 'f')
}

/// The hyphenated lower-case form of a UUID: 36 characters, hyphens after the
/// 8th, 12th, 16th and 20th hex digit.
pub open spec fn is_uuid_text(s: Seq<char>) -> bool {
    &&& s.len() == 36
    &&& forall|i: int|
        0 <= i < 36 ==> (if i == 8 || i == 13 || i == 18 || i == 23 {
            s[i] == '-'
        } else {
            is_lower_hex_digit(#[trigger] s[i])
        })
}

/// A fresh random identifier: `uuid::Uuid::new_v4()` written with its
/// `Display` impl, which prints the hyphenated lower-case form. Nothing is
/// claimed of which identifier comes out.
#[verifier::external_body]
pub(crate) fn random_uuid_text() -> (s: String)
    ensures
        is_uuid_text(s@),
{
    uuid::Uuid::new_v4().to_string()
}

/// The sixteen bytes of a fresh `uuid::Uuid::new_v4()`. They are random but
/// for the version and variant bits, which this contract leaves unsaid.
#[verifier::external_body]
pub(crate) fn random_uuid_bytes() -> (b: [u8; 16])
{
    *uuid::Uuid::new_v4().as_bytes()
}

} // verus!
