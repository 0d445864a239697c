//! The capability check that precedes every restricted mutation.

use vstd::prelude::*;

use crate::address::Address;
use crate::errors::AuthzError;

verus! {

/// Admits the call only when the presented identity is the required one.
/// It reads and changes nothing else, and is repeated on every call.
pub fn authorize(required: &Address, presented: &Address) -> (r: Result<(), AuthzError>)
    ensures
        r is Ok <==> required@ == presented@,
        r is Err ==> r == Err::<(), AuthzError>(AuthzError::Unauthorized),
{
    if required.same_as(presented) {
        Ok(())
    } else {
        Err(AuthzError::Unauthorized)
    }
}

} // verus!
