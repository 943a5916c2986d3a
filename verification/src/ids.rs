//! Random identifiers.
use vstd::prelude::*;

verus! {

/// Whether a text is a random UUID: 32 lowercase hexadecimal digits in groups of 8, 4, 4, 4 and
/// 12 with hyphens between them, the third group led by `4` and the fourth by `8`, `9`, `a`
/// or `b`.
pub open spec fn is_random_uuid(text: Seq<char>) -> bool {
    &&& text.len() == 36
    &&& forall|i: int|
        0 <= i < 36 ==> if i == 8 || i == 13 || i == 18 || i == 23 {
            (#[trigger] text[i]) == '-'
        } else {
            '0' <= text[i] <= '9' || 'a' <= text[i] <= 'f'
        }
    &&& text[14] == '4'
    &&& (text[19] == '8' || text[19] == '9' || text[19] == 'a' || text[19] == 'b')
}

/// `uuid::Uuid::new_v4`, written out: some random UUID. Which one is not stated; without a
/// source of random bytes the call does not return.
#[verifier::external_body]
pub(crate) fn random_uuid() -> (r: String)
    ensures
        is_random_uuid(r@),
{
    uuid::Uuid::new_v4().to_string()
}

} // verus!
