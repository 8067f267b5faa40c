//! Fresh identifiers.
use vstd::prelude::*;

verus! {

/// The number of characters of an identifier: 32 digits in five groups,
/// with a hyphen between two groups.
pub const UUID_LENGTH: usize = 36;

/// A new random identifier, written as `uuid::Uuid::new_v4` writes itself.
///
/// Which identifier comes out is not claimed: it is drawn at random. What
/// is claimed is its length: a `Uuid` writes itself in the hyphenated
/// form, which has 36 characters. Where the operating system hands out no
/// random bytes, drawing it panics.
#[verifier::external_body]
pub(crate) fn fresh_uuid() -> (text: String)
    ensures
        text@.len() == UUID_LENGTH,
{
    uuid::Uuid::new_v4().to_string()
}

} // verus!
