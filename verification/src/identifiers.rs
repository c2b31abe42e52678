//! Fresh identifiers.

use vstd::prelude::*;

verus! {

/// A digit of a number written to the base sixteen, in lower case.
pub open spec fn is_lower_hex(c: char) -> bool {
    ('0' <= c && c <= '9') || ('a' <= c && c <= 'f')
}

/// The shape of an identifier: five groups of 8, 4, 4, 4 and 12 digits to
/// the base sixteen, in lower case, with a hyphen between two groups.
pub open spec fn is_identifier(s: Seq<char>) -> bool {
    &&& s.len() == 36
    &&& forall|i: int|
        0 <= i < 36 ==> if i == 8 || i == 13 || i == 18 || i == 23 {
            #[trigger] s[i] == '-'
        } else {
            is_lower_hex(s[i])
        }
}

/// Draws a random identifier: `uuid::Uuid::new_v4`, written out as text by
/// the identifier's `Display`. Only the shape of the text is claimed, which
/// is that of every identifier so written; which digits it holds is left
/// open: they are drawn at random.
#[verifier::external_body]
pub(crate) fn random_uuid() -> (id: String)
    ensures
        is_identifier(id@),
{
    uuid::Uuid::new_v4().to_string()
}

/// A fresh identifier for a backup, a record or a session.
pub fn fresh_id() -> (id: String)
    ensures
        is_identifier(id@),
{
    random_uuid()
}

} // verus!
