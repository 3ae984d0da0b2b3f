//! Fresh identifiers for submitted jobs.

use vstd::prelude::*;

verus! {

/// Relies on `uuid::Uuid::new_v4` and its `Display` form: a fresh random
/// version-4 UUID rendered hyphenated, which is always 36 characters. The
/// value is random, so nothing more is promised of it.
#[verifier::external_body]
pub(crate) fn fresh_job_id() -> (id: String)
    ensures
        id@.len() == 36,
{
    uuid::Uuid::new_v4().to_string()
}

} // verus!
