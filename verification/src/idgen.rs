use vstd::prelude::*;

verus! {

/// Relies on uuid::Uuid::new_v4 and its hyphenated rendering through
/// ToString: a freshly drawn random version-4 UUID, written in the canonical
/// hyphenated form, which is always 36 characters long. The value itself is
/// random, so nothing more is promised of it.
#[verifier::external_body]
pub(crate) fn fresh_identifier() -> (r: String)
    ensures
        r@.len() == 36,
{
    uuid::Uuid::new_v4().to_string()
}

} // verus!
