use vstd::prelude::*;

use crate::types::ElasticId;

verus! {

/// `c` is a lower-case hexadecimal digit.
pub open spec fn is_lower_hex_digit(c: char) -> bool {
    ('0' <= c && c <= '9') || ('a' <= c && c <= 'f')
}

/// `s` is a random (version 4) UUID written in its simple form: 32
/// lower-case hexadecimal digits without hyphens, the version digit `4` at
/// index 12 and the variant digit, one of `8`, `9`, `a`, `b`, at index 16.
pub open spec fn is_simple_v4_uuid(s: Seq<char>) -> bool {
    &&& s.len() == 32
    &&& forall|i: int| 0 <= i < 32 ==> is_lower_hex_digit(#[trigger] s[i])
    &&& s[12] == '4'
    &&& (s[16] == '8' || s[16] == '9' || s[16] == 'a' || s[16] == 'b')
}

/// Calls `uuid::Uuid::new_v4` and writes the result with the `Simple`
/// formatter. The uuid crate draws the value from the operating system's
/// random source, masks in the version bits (4) and the variant bits
/// (binary 10), and the simple formatter writes the 16 bytes as 32
/// lower-case hexadecimal digits; that shape is all this contract claims.
/// The crate panics when the random source fails, which no input decides.
#[verifier::external_body]
fn new_v4_simple() -> (id: String)
    ensures
        is_simple_v4_uuid(id@),
{
    uuid::Uuid::new_v4().simple().to_string()
}

/// A fresh random identifier for a new document.
pub fn elastic_id() -> (id: ElasticId)
    ensures
        is_simple_v4_uuid(id@),
{
    new_v4_simple()
}

} // verus!
