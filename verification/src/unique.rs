//! Fresh identifiers for operations and temporary names.
use vstd::prelude::*;

verus! {

/// A lower-case hexadecimal digit.
pub open spec fn is_lower_hex(c: char) -> bool {
    (48 <= c as u32 && c as u32 <= 57) || (97 <= c as u32 && c as u32 <= 102)
}

/// The hyphenated text of a random (version 4) UUID, `xxxxxxxx-xxxx-4xxx-yxxx-xxxxxxxxxxxx`:
/// lower-case hexadecimal digits, hyphens at four fixed places, the version digit `4`, and a
/// variant digit `y` that is one of `8`, `9`, `a`, `b`.
pub open spec fn is_random_uuid_text(s: Seq<char>) -> bool {
    &&& s.len() == 36
    &&& forall|i: int|
        0 <= i < 36 ==> if i == 8 || i == 13 || i == 18 || i == 23 {
            #[trigger] s[i] == '-'
        } else {
            is_lower_hex(s[i])
        }
    &&& s[14] == '4'
    &&& (s[19] == '8' || s[19] == '9' || s[19] == 'a' || s[19] == 'b')
}

/// A fresh random identifier: `uuid::Uuid::new_v4()` in its hyphenated text form
/// (`Uuid::to_string`).
///
/// Which identifier comes back is left open; the contract states its form, which the version
/// and variant bits that `new_v4` sets and the lower-case hyphenated `Display` fix.
#[verifier::external_body]
pub(crate) fn new_unique_id() -> (r: String)
    ensures
        is_random_uuid_text(r@),
{
    uuid::Uuid::new_v4().to_string()
}

} // verus!
