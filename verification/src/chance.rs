//! Names that differ from one start to the next.

use vstd::prelude::*;

verus! {

/// How long the name of a daemon is.
pub const ID_LENGTH: usize = 21;

/// Whether a character may stand in the name of a daemon: a letter or digit of ASCII, an
/// underscore or a hyphen.
pub open spec fn is_id_char(c: char) -> bool {
    c == '_' || c == '-' || '0' <= c <= '9' || 'a' <= c <= 'z' || 'A' <= c <= 'Z'
}

/// Calls `nanoid::format` with the crate's own source of chance and alphabet. The result has
/// the length that was asked for and holds characters of the alphabet; which ones is left
/// to chance.
#[verifier::external_body]
pub(crate) fn fresh_id() -> (r: String)
    ensures
        r@.len() == ID_LENGTH,
        forall|i: int| 0 <= i < r@.len() ==> is_id_char(#[trigger] r@[i]),
{
    nanoid::format(nanoid::rngs::default, &nanoid::alphabet::SAFE, ID_LENGTH)
}

} // verus!
