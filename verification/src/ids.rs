//! Fresh identifiers.
use crate::outside::random_uuid;
use vstd::prelude::*;

verus! {

/// Whether a text was drawn at random as a UUID.
pub closed spec fn drawn(uuid: String) -> bool {
    call_ensures(random_uuid, (), uuid)
}

/// Draws a UUID, written without hyphens.
pub(crate) fn fresh_uuid() -> (r: String)
    ensures
        drawn(r),
        crate::outside::is_simple_uuid(r@),
{
    random_uuid()
}

} // verus!
