//! The authorization gate.
//!
//! The host verifies signatures out of band and supplies the set of
//! identities that signed the instruction.  `require_signer` checks
//! membership in that set; `require_owner` compares an identity with the
//! owner a record names.

use vstd::prelude::*;
use crate::{Identity, VortexError};

verus! {

/// Whether `id` is among the identities that authorized the instruction.
pub open spec fn spec_is_authorized(signers: Seq<Identity>, id: Identity) -> bool {
    signers.contains(id)
}

pub open spec fn spec_require_signer(signers: Seq<Identity>, id: Identity) -> Result<
    (),
    VortexError,
> {
    if spec_is_authorized(signers, id) {
        Ok(())
    } else {
        Err(VortexError::MissingAuthorization)
    }
}

pub open spec fn spec_require_owner(record_owner: Identity, id: Identity) -> Result<
    (),
    VortexError,
> {
    if record_owner == id {
        Ok(())
    } else {
        Err(VortexError::Unauthorized)
    }
}

/// Whether `id` is among the identities that authorized the instruction.
pub fn is_authorized(signers: &Vec<Identity>, id: Identity) -> (b: bool)
    ensures
        b == spec_is_authorized(signers@, id),
{
    let mut i: usize = 0;
    while i < signers.len()
        invariant
            0 <= i <= signers@.len(),
            forall|j: int| 0 <= j < i ==> signers@[j] != id,
        decreases signers@.len() - i,
    {
        if signers[i] == id {
            return true;
        }
        i += 1;
    }
    false
}

/// Fails with `MissingAuthorization` unless `id` authorized the instruction.
pub fn require_signer(signers: &Vec<Identity>, id: Identity) -> (r: Result<(), VortexError>)
    ensures
        r == spec_require_signer(signers@, id),
{
    if is_authorized(signers, id) {
        Ok(())
    } else {
        Err(VortexError::MissingAuthorization)
    }
}

/// Fails with `Unauthorized` unless the authorized identity `id` is the
/// owner the record names.
pub fn require_owner(record_owner: Identity, id: Identity) -> (r: Result<(), VortexError>)
    ensures
        r == spec_require_owner(record_owner, id),
{
    if record_owner == id {
        Ok(())
    } else {
        Err(VortexError::Unauthorized)
    }
}

} // verus!
