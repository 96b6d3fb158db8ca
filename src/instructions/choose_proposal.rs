use vstd::prelude::*;
use crate::errors::SolanceError;
use crate::states::{escrow_holds, Client, Contract, Contractor, Proposal, Pubkey, Status};

verus! {

/// The accounts of choosing a proposal: the client picks one bid for its
/// contract and locks the bid's amount in the contract's vault.
#[derive(Debug, Clone)]
pub struct ChooseProposal {
    /// The signing identity, which pays into the vault.
    pub signer: Pubkey,
    /// The signer's funds.
    pub signer_lamports: u64,
    /// The address of the client profile.
    pub client_account_key: Pubkey,
    /// The client profile that owns the contract.
    pub client_account: Client,
    /// The address of the contract.
    pub contract_key: Pubkey,
    /// The contract.
    pub contract: Contract,
    /// The chosen proposal.
    pub proposal_account: Proposal,
    /// The address of the proposal's contractor profile.
    pub contractor_account_key: Pubkey,
    /// The proposal's contractor profile.
    pub contractor_account: Contractor,
    /// The funds in the contract's vault: `None` until it is created.
    pub vault: Option<u64>,
}

/// The first guard of choosing a proposal that fails, if any, in the order
/// in which they are checked: authorization and status before anything
/// about the proposal, and funds last.
pub open spec fn choose_proposal_error(ctx: ChooseProposal) -> Option<SolanceError> {
    if ctx.client_account.owner != ctx.signer || ctx.contract.client != ctx.client_account_key {
        Some(SolanceError::UnauthorizedAccount)
    } else if ctx.contract.status != Status::Opened {
        Some(SolanceError::ContractNotOpened)
    } else if ctx.contract.contractor.is_some() {
        Some(SolanceError::ContractAlreadyHasContractor)
    } else if ctx.proposal_account.contract != ctx.contract_key {
        Some(SolanceError::InvalidProposalForContract)
    } else if ctx.proposal_account.contractor != ctx.contractor_account_key {
        Some(SolanceError::InvalidContractorForProposal)
    } else if ctx.signer_lamports < ctx.proposal_account.amount {
        Some(SolanceError::InsufficientClientFunds)
    } else {
        None
    }
}

/// The contract once `p` is chosen for it.
pub open spec fn contract_with_proposal(c: Contract, p: Proposal) -> Contract {
    Contract {
        contractor: Some(p.contractor),
        amount: Some(p.amount),
        status: Status::Accepted,
        accepted_proposal_id: Some(p.proposal_id),
        ..c
    }
}

/// The accounts after a successful choice: the bid's amount has moved from
/// the signer into a new vault, and the contract is accepted.
pub open spec fn proposal_chosen(ctx: ChooseProposal) -> ChooseProposal {
    ChooseProposal {
        signer_lamports: (ctx.signer_lamports - ctx.proposal_account.amount) as u64,
        contract: contract_with_proposal(ctx.contract, ctx.proposal_account),
        vault: Some(ctx.proposal_account.amount),
        ..ctx
    }
}

/// Chooses the proposal for the signer's open contract, moving exactly the
/// proposal's amount from the signer into the contract's vault, which this
/// creates. An open contract has no vault yet; the accepted contract and
/// its vault meet the escrow invariant.
pub fn choose_proposal(ctx: &mut ChooseProposal) -> (r: Result<(), SolanceError>)
    requires
        old(ctx).contract.status == Status::Opened ==> old(ctx).vault.is_none(),
    ensures
        match choose_proposal_error(*old(ctx)) {
            Some(e) => r == Err::<(), SolanceError>(e) && *final(ctx) == *old(ctx),
            None => r is Ok && *final(ctx) == proposal_chosen(*old(ctx)),
        },
        r is Ok ==> {
            &&& final(ctx).vault == Some(old(ctx).proposal_account.amount)
            &&& final(ctx).contract.amount == Some(old(ctx).proposal_account.amount)
            &&& final(ctx).contract.status == Status::Accepted
            &&& escrow_holds(final(ctx).contract, final(ctx).vault)
        },
{
    if ctx.client_account.owner != ctx.signer || ctx.contract.client != ctx.client_account_key {
        return Err(SolanceError::UnauthorizedAccount);
    }
    if ctx.contract.status != Status::Opened {
        return Err(SolanceError::ContractNotOpened);
    }
    if ctx.contract.contractor.is_some() {
        return Err(SolanceError::ContractAlreadyHasContractor);
    }
    if ctx.proposal_account.contract != ctx.contract_key {
        return Err(SolanceError::InvalidProposalForContract);
    }
    if ctx.proposal_account.contractor != ctx.contractor_account_key {
        return Err(SolanceError::InvalidContractorForProposal);
    }
    let amount = ctx.proposal_account.amount;
    if ctx.signer_lamports < amount {
        return Err(SolanceError::InsufficientClientFunds);
    }
    ctx.signer_lamports = ctx.signer_lamports - amount;
    ctx.vault = Some(amount);
    ctx.contract.contractor = Some(ctx.proposal_account.contractor);
    ctx.contract.amount = Some(amount);
    ctx.contract.status = Status::Accepted;
    ctx.contract.accepted_proposal_id = Some(ctx.proposal_account.proposal_id);
    Ok(())
}

} // verus!
