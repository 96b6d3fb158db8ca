use vstd::prelude::*;
use crate::errors::SolanceError;
use crate::events::ProposalUpdated;
use crate::states::{Contract, Contractor, Proposal, Pubkey, Status};

verus! {

/// The accounts of revising a proposal.
#[derive(Debug, Clone)]
pub struct UpdateProposal {
    /// The signing identity.
    pub contractor: Pubkey,
    /// The address of the contractor profile.
    pub contractor_account_key: Pubkey,
    /// The contractor profile that submitted the proposal.
    pub contractor_account: Contractor,
    /// The proposal to revise.
    pub proposal_account: Proposal,
    /// The address of the proposal's contract.
    pub contract_key: Pubkey,
    /// The proposal's contract.
    pub contract: Contract,
}

/// The first guard of a proposal revision that fails, if any.
pub open spec fn update_proposal_error(ctx: UpdateProposal) -> Option<SolanceError> {
    if ctx.contractor_account.owner != ctx.contractor {
        Some(SolanceError::UnauthorizedAccount)
    } else if ctx.proposal_account.contractor != ctx.contractor_account_key {
        Some(SolanceError::UnauthorizedAccount)
    } else if ctx.proposal_account.contract != ctx.contract_key {
        Some(SolanceError::InvalidProposalForContract)
    } else if ctx.contract.status != Status::Opened {
        Some(SolanceError::ProposalCannotBeUpdated)
    } else {
        None
    }
}

/// Replaces the amount of the signer's proposal while its contract is
/// still open.
pub fn update_proposal(ctx: &mut UpdateProposal, amount: u64) -> (r: Result<
    ProposalUpdated,
    SolanceError,
>)
    ensures
        match update_proposal_error(*old(ctx)) {
            Some(e) => r == Err::<ProposalUpdated, SolanceError>(e) && *final(ctx) == *old(ctx),
            None => r == Ok::<ProposalUpdated, SolanceError>(
                (ProposalUpdated {
                    contract: old(ctx).proposal_account.contract,
                    contractor: old(ctx).proposal_account.contractor,
                    proposal_id: old(ctx).proposal_account.proposal_id,
                    old_amount: old(ctx).proposal_account.amount,
                    new_amount: amount,
                }),
            ) && *final(ctx) == (UpdateProposal {
                proposal_account: Proposal { amount, ..old(ctx).proposal_account },
                ..*old(ctx)
            }),
        },
{
    if ctx.contractor_account.owner != ctx.contractor {
        return Err(SolanceError::UnauthorizedAccount);
    }
    if ctx.proposal_account.contractor != ctx.contractor_account_key {
        return Err(SolanceError::UnauthorizedAccount);
    }
    if ctx.proposal_account.contract != ctx.contract_key {
        return Err(SolanceError::InvalidProposalForContract);
    }
    if ctx.contract.status != Status::Opened {
        return Err(SolanceError::ProposalCannotBeUpdated);
    }
    let old_amount = ctx.proposal_account.amount;
    ctx.proposal_account.amount = amount;
    Ok(
        ProposalUpdated {
            contract: ctx.proposal_account.contract,
            contractor: ctx.proposal_account.contractor,
            proposal_id: ctx.proposal_account.proposal_id,
            old_amount,
            new_amount: amount,
        },
    )
}

} // verus!
