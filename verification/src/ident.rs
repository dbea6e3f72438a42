//! Fresh identifiers.

use vstd::prelude::*;

verus! {

/// Whether `c` is a lower-case hexadecimal digit.
pub open spec fn is_hex_digit(c: char) -> bool {
    ('0' <= c && c <= '9') || ('a' <= c && c <= 'f')
}

/// Whether `c` is the leading hexadecimal digit of the variant of a random UUID.
pub open spec fn is_variant_digit(c: char) -> bool {
    c == '8' || c == '9' || c == 'a' || c == 'b'
}

/// Whether `s` is a version 4 UUID as 32 hexadecimal digits.
pub open spec fn is_simple_uuid(s: Seq<char>) -> bool {
    &&& s.len() == 32
    &&& forall|i: int| 0 <= i < 32 ==> is_hex_digit(#[trigger] s[i])
    &&& s[12] == '4'
    &&& is_variant_digit(s[16])
}

/// Whether position `i` of a hyphenated UUID holds a hyphen.
pub open spec fn hyphen_at(i: int) -> bool {
    i == 8 || i == 13 || i == 18 || i == 23
}

/// Whether `s` is a version 4 UUID in five groups joined by hyphens.
pub open spec fn is_hyphenated_uuid(s: Seq<char>) -> bool {
    &&& s.len() == 36
    &&& forall|i: int|
        0 <= i < 36 ==> if hyphen_at(i) {
            #[trigger] s[i] == '-'
        } else {
            is_hex_digit(s[i])
        }
    &&& s[14] == '4'
    &&& is_variant_digit(s[19])
}

/// Calls `uuid::Uuid::new_v4` and writes the UUID without hyphens. Which UUID
/// comes is left to chance; its form is not.
#[verifier::external_body]
pub(crate) fn fresh_simple_uuid() -> (r: String)
    ensures
        is_simple_uuid(r@),
{
    uuid::Uuid::new_v4().simple().to_string()
}

/// Calls `uuid::Uuid::new_v4` and writes the UUID in its hyphenated form. Which
/// UUID comes is left to chance; its form is not.
#[verifier::external_body]
pub(crate) fn fresh_hyphenated_uuid() -> (r: String)
    ensures
        is_hyphenated_uuid(r@),
{
    uuid::Uuid::new_v4().to_string()
}

} // verus!
