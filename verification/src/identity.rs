//! What tells one session from another: the user, and a random text.

use vstd::prelude::*;
use vstd::string::*;

verus! {

/// A digit of a hexadecimal number in lower case.
pub open spec fn is_hex_digit(c: char) -> bool {
    ('0' <= c && c <= '9') || ('a' <= c && c <= 'f')
}

/// The hyphenated form of a random UUID: digits in groups of eight, four, four, four and twelve,
/// with the version, four, at the head of the third group and the variant at that of the fourth.
pub open spec fn is_random_uuid(text: Seq<char>) -> bool {
    &&& text.len() == 36
    &&& forall|i: int|
        0 <= i < 36 ==> if i == 8 || i == 13 || i == 18 || i == 23 {
            #[trigger] text[i] == '-'
        } else {
            is_hex_digit(text[i])
        }
    &&& text[14] == '4'
    &&& text[19] == '8' || text[19] == '9' || text[19] == 'a' || text[19] == 'b'
}

/// `uuid::Uuid::new_v4`, written with `to_string`: a random UUID in its hyphenated form. Which
/// one is left to chance.
#[verifier::external_body]
pub(crate) fn random_uuid() -> (r: String)
    ensures
        is_random_uuid(r@),
{
    uuid::Uuid::new_v4().to_string()
}

/// `whoami::username`: the name of the user that runs the process, which only the machine knows.
#[verifier::external_body]
pub(crate) fn username() -> (r: String) {
    whoami::username()
}

} // verus!
