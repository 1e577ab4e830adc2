//! Generation of opaque textual identifiers for granted leases.

use vstd::prelude::*;

verus! {

/// Relies on `uuid::Uuid::new_v4` and its `Display` impl: the hyphenated
/// text form of a version-4 identifier is 36 ASCII characters. The value
/// itself is random, so nothing more is promised of it.
#[verifier::external_body]
pub(crate) fn fresh_uuid_string() -> (r: String)
    ensures
        r@.len() == 36,
{
    uuid::Uuid::new_v4().to_string()
}

} // verus!
