//! Fresh random identifiers.
use vstd::prelude::*;

verus! {

/// A lower-case hexadecimal digit.
pub open spec fn is_hex_lower(c: char) -> bool {
    ('0' <= c && c <= '9') || ('a' <= c && c <= 'f')
}

/// A character that the hyphenated lower-case form of a UUID may hold.
pub open spec fn is_uuid_char(c: char) -> bool {
    is_hex_lower(c) || c == '-'
}

/// The positions of the four hyphens in the `8-4-4-4-12` form.
pub open spec fn is_hyphen_at(i: int) -> bool {
    i == 8 || i == 13 || i == 18 || i == 23
}

/// `s` is the hyphenated lower-case text of a random (version 4, RFC 4122
/// variant) UUID: 36 characters in the groups `8-4-4-4-12`, each group of
/// lower-case hexadecimal digits; the version digit is `4` and the variant
/// digit is one of `8`, `9`, `a`, `b`.
pub open spec fn is_uuid_text(s: Seq<char>) -> bool {
    &&& s.len() == 36
    &&& forall|i: int|
        #![trigger s[i]]
        0 <= i < 36 ==> if is_hyphen_at(i) {
            s[i] == '-'
        } else {
            is_hex_lower(s[i])
        }
    &&& s[14] == '4'
    &&& (s[19] == '8' || s[19] == '9' || s[19] == 'a' || s[19] == 'b')
}

/// Every character of a UUID's text is a hexadecimal digit or a hyphen.
pub proof fn lemma_uuid_text_chars(s: Seq<char>)
    requires
        is_uuid_text(s),
    ensures
        forall|i: int| 0 <= i < s.len() ==> is_uuid_char(#[trigger] s[i]),
{
}

/// Calls `uuid::Uuid::new_v4` and formats the result with its `Display`
/// impl. The value is random; the contract claims only the shape that the
/// `uuid` crate always gives: `new_v4` sets the version nibble to 4 and the
/// variant bits to RFC 4122, and `Display` writes the hyphenated lower-case
/// form. The crate panics when the operating system cannot supply random
/// bytes; that depends on the machine, not on an input, and is not excluded
/// here.
#[verifier::external_body]
pub fn new_uuid() -> (r: String)
    ensures
        is_uuid_text(r@),
{
    uuid::Uuid::new_v4().to_string()
}

} // verus!
