use vstd::prelude::*;
use crate::errors::SolanceError;
use crate::events::ContractorInitialized;
use crate::states::{Contractor, Pubkey};

verus! {

/// The accounts of contractor registration.
#[derive(Debug, Clone, Copy, PartialEq, Eq, Structural)]
pub struct InitializeContractor {
    /// The signing identity that will own the profile.
    pub contractor: Pubkey,
    /// What the profile's address holds: `None` until it is created.
    pub contractor_account: Option<Contractor>,
}

/// A fresh contractor profile: no proposal submitted yet.
pub open spec fn new_contractor(owner: Pubkey) -> Contractor {
    Contractor { owner, next_proposal_id: 0 }
}

/// Creates the signer's contractor profile, logging the registration at
/// `timestamp` (the host's wall-clock time). Fails when the profile exists.
pub fn initialize_contractor(ctx: &mut InitializeContractor, timestamp: i64) -> (r: Result<
    ContractorInitialized,
    SolanceError,
>)
    ensures
        old(ctx).contractor_account.is_some() ==> r == Err::<ContractorInitialized, SolanceError>(
            SolanceError::AlreadyInitialized,
        ) && *final(ctx) == *old(ctx),
        old(ctx).contractor_account.is_none() ==> r == Ok::<ContractorInitialized, SolanceError>(
            (ContractorInitialized { owner: old(ctx).contractor, timestamp }),
        ) && final(ctx).contractor == old(ctx).contractor && final(ctx).contractor_account == Some(
            new_contractor(old(ctx).contractor),
        ),
{
    if ctx.contractor_account.is_some() {
        return Err(SolanceError::AlreadyInitialized);
    }
    ctx.contractor_account = Some(Contractor { owner: ctx.contractor, next_proposal_id: 0 });
    Ok(ContractorInitialized { owner: ctx.contractor, timestamp })
}

} // verus!
