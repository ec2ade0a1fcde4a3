//! The access-control check shared by every owner-gated operation.

use vstd::prelude::*;
use crate::account::AccountId;
use crate::error::TokenError;

verus! {

/// Whether `caller` is the designated `owner`.
pub open spec fn is_owner(caller: Seq<u8>, owner: Seq<u8>) -> bool {
    caller == owner
}

/// Passes exactly when `caller` is the designated `owner`; any other caller is
/// turned away as unauthorized.
pub fn require_owner(caller: &AccountId, owner: &AccountId) -> (r: Result<(), TokenError>)
    ensures
        r == (if is_owner(caller@, owner@) {
            Ok::<(), TokenError>(())
        } else {
            Err::<(), TokenError>(TokenError::Unauthorized)
        }),
{
    if caller.same(owner) {
        Ok(())
    } else {
        Err(TokenError::Unauthorized)
    }
}

} // verus!
