//! Fresh secrets: the calls that draw a password and a zero-key from the
//! system's random source, and what holds of every value they return.

use rand::distributions::{Alphanumeric, DistString};
use rand::rngs::StdRng;
use rand::SeedableRng;
use uuid::Uuid;
use vstd::prelude::*;

verus! {

/// Whether `c` is an ASCII letter or digit.
pub open spec fn is_alphanumeric(c: char) -> bool {
    ||| ('a' <= c && c <= 'z')
    ||| ('A' <= c && c <= 'Z')
    ||| ('0' <= c && c <= '9')
}

/// Whether every character of `s` is an ASCII letter or digit.
pub open spec fn all_alphanumeric(s: Seq<char>) -> bool {
    forall|i: int| 0 <= i < s.len() ==> is_alphanumeric(#[trigger] s[i])
}

/// Whether `c` is a lower-case hexadecimal digit.
pub open spec fn is_lower_hex(c: char) -> bool {
    ('0' <= c && c <= '9') || ('a' <= c && c <= 'f')
}

/// Whether `s` has the shape of a UUID in its hyphenated lower-case form:
/// 36 characters, a hyphen at each of the positions 8, 13, 18 and 23, and a
/// lower-case hexadecimal digit everywhere else.
pub open spec fn is_hyphenated_uuid(s: Seq<char>) -> bool {
    &&& s.len() == 36
    &&& forall|i: int|
        0 <= i < 36 ==> if i == 8 || i == 13 || i == 18 || i == 23 {
            #[trigger] s[i] == '-'
        } else {
            is_lower_hex(s[i])
        }
}

/// Draws `len` random characters with `rand`'s `Alphanumeric::sample_string`,
/// from a `StdRng` seeded by `StdRng::from_entropy`.
///
/// Claimed of every outcome: the string has `len` characters, each an ASCII
/// letter or digit. Nothing is claimed about which ones.
#[verifier::external_body]
pub(crate) fn random_alphanumeric(len: usize) -> (secret: String)
    ensures
        secret@.len() == len,
        all_alphanumeric(secret@),
{
    Alphanumeric.sample_string(&mut StdRng::from_entropy(), len)
}

/// Draws a random version-4 UUID with `uuid`'s `Uuid::new_v4` and writes it
/// with its `Display` impl.
///
/// Claimed of every outcome: the text has the hyphenated lower-case shape.
/// Nothing is claimed about which UUID it is.
#[verifier::external_body]
pub(crate) fn random_uuid_text() -> (token: String)
    ensures
        is_hyphenated_uuid(token@),
{
    Uuid::new_v4().to_string()
}

} // verus!
