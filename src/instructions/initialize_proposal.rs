use vstd::prelude::*;
use crate::errors::SolanceError;
use crate::events::ProposalInitialized;
use crate::states::{Contractor, Proposal, Pubkey};

verus! {

/// The accounts of submitting a proposal. A proposal's address is derived
/// from its contract and its contractor, so a contractor holds at most one
/// proposal per contract; its id comes from the contractor's counter.
#[derive(Debug, Clone, Copy, PartialEq, Eq, Structural)]
pub struct InitializeProposal {
    /// The signing identity.
    pub contractor: Pubkey,
    /// The address of the contractor profile.
    pub contractor_account_key: Pubkey,
    /// The contractor profile that submits the proposal.
    pub contractor_account: Contractor,
    /// The address of the contract bid on.
    pub contract_key: Pubkey,
    /// What the proposal's address holds: `None` until it is created.
    pub proposal_account: Option<Proposal>,
}

/// The first guard of proposal submission that fails, if any.
pub open spec fn initialize_proposal_error(ctx: InitializeProposal) -> Option<SolanceError> {
    if ctx.contractor_account.owner != ctx.contractor {
        Some(SolanceError::UnauthorizedAccount)
    } else if ctx.proposal_account.is_some() {
        Some(SolanceError::AlreadyInitialized)
    } else {
        None
    }
}

/// The accounts after a successful submission of a bid of `amount`.
pub open spec fn proposal_submitted(ctx: InitializeProposal, amount: u64) -> InitializeProposal {
    InitializeProposal {
        contractor_account: Contractor {
            next_proposal_id: (ctx.contractor_account.next_proposal_id + 1) as u64,
            ..ctx.contractor_account
        },
        proposal_account: Some(
            Proposal {
                contract: ctx.contract_key,
                contractor: ctx.contractor_account_key,
                proposal_id: ctx.contractor_account.next_proposal_id,
                amount,
            },
        ),
        ..ctx
    }
}

/// Submits the signer's bid of `amount` on the contract: the proposal takes
/// the contractor's counter as its id, and the counter moves on by one.
pub fn initialize_proposal(ctx: &mut InitializeProposal, amount: u64) -> (r: Result<
    ProposalInitialized,
    SolanceError,
>)
    requires
        old(ctx).contractor_account.next_proposal_id < u64::MAX,
    ensures
        match initialize_proposal_error(*old(ctx)) {
            Some(e) => r == Err::<ProposalInitialized, SolanceError>(e) && *final(ctx) == *old(
                ctx,
            ),
            None => r == Ok::<ProposalInitialized, SolanceError>(
                (ProposalInitialized {
                    contract: old(ctx).contract_key,
                    contractor: old(ctx).contractor_account_key,
                    proposal_id: old(ctx).contractor_account.next_proposal_id,
                    amount,
                }),
            ) && *final(ctx) == proposal_submitted(*old(ctx), amount),
        },
{
    if ctx.contractor_account.owner != ctx.contractor {
        return Err(SolanceError::UnauthorizedAccount);
    }
    if ctx.proposal_account.is_some() {
        return Err(SolanceError::AlreadyInitialized);
    }
    let proposal_id = ctx.contractor_account.next_proposal_id;
    ctx.contractor_account.next_proposal_id = proposal_id + 1;
    ctx.proposal_account = Some(
        Proposal {
            contract: ctx.contract_key,
            contractor: ctx.contractor_account_key,
            proposal_id,
            amount,
        },
    );
    Ok(
        ProposalInitialized {
            contract: ctx.contract_key,
            contractor: ctx.contractor_account_key,
            proposal_id,
            amount,
        },
    )
}

} // verus!
