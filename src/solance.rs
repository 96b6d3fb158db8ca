//! The program's instruction entry points, one per instruction.

use vstd::prelude::*;
use crate::errors::SolanceError;
use crate::events::{
    ClientInitialized, ContractInitialized, ContractorInitialized, ProposalInitialized,
    ProposalUpdated,
};
use crate::instructions::choose_proposal::{
    choose_proposal, choose_proposal_error, proposal_chosen, ChooseProposal,
};
use crate::instructions::initialize_client::{initialize_client, new_client, InitializeClient};
use crate::instructions::initialize_contract::{
    client_after_open, initialize_contract, initialize_contract_error, is_opened_contract,
    InitializeContract,
};
use crate::instructions::initialize_contractor::{
    initialize_contractor, new_contractor, InitializeContractor,
};
use crate::instructions::initialize_proposal::{
    initialize_proposal, initialize_proposal_error, proposal_submitted, InitializeProposal,
};
use crate::instructions::update_proposal::{update_proposal, update_proposal_error, UpdateProposal};
use crate::states::{escrow_holds, Contract, Proposal, Status};

verus! {

/// Entry point of `initialize_client`; see there.
pub fn initialize_client_ix(ctx: &mut InitializeClient, timestamp: i64) -> (r: Result<
    ClientInitialized,
    SolanceError,
>)
    ensures
        old(ctx).client_account.is_some() ==> r == Err::<ClientInitialized, SolanceError>(
            SolanceError::AlreadyInitialized,
        ) && *final(ctx) == *old(ctx),
        old(ctx).client_account.is_none() ==> r == Ok::<ClientInitialized, SolanceError>(
            (ClientInitialized { owner: old(ctx).client, timestamp }),
        ) && final(ctx).client == old(ctx).client && final(ctx).client_account == Some(
            new_client(old(ctx).client),
        ),
{
    initialize_client(ctx, timestamp)
}

/// Entry point of `initialize_contractor`; see there.
pub fn initialize_contractor_ix(ctx: &mut InitializeContractor, timestamp: i64) -> (r: Result<
    ContractorInitialized,
    SolanceError,
>)
    ensures
        old(ctx).contractor_account.is_some() ==> r == Err::<ContractorInitialized, SolanceError>(
            SolanceError::AlreadyInitialized,
        ) && *final(ctx) == *old(ctx),
        old(ctx).contractor_account.is_none() ==> r == Ok::<ContractorInitialized, SolanceError>(
            (ContractorInitialized { owner: old(ctx).contractor, timestamp }),
        ) && final(ctx).contractor == old(ctx).contractor && final(ctx).contractor_account == Some(
            new_contractor(old(ctx).contractor),
        ),
{
    initialize_contractor(ctx, timestamp)
}

/// Entry point of `initialize_contract`; see there.
pub fn initialize_contract_ix(ctx: &mut InitializeContract, title: String, topic: String) -> (r:
    Result<(Contract, ContractInitialized), SolanceError>)
    requires
        old(ctx).client_account.next_contract_id < u64::MAX,
    ensures
        match initialize_contract_error(*old(ctx), title@, topic@) {
            Some(e) => r == Err::<(Contract, ContractInitialized), SolanceError>(e) && *final(ctx)
                == *old(ctx),
            None => r is Ok && is_opened_contract(
                r->Ok_0.0,
                old(ctx).client_account_key,
                old(ctx).client_account,
                title@,
                topic@,
            ) && r->Ok_0.1 == (ContractInitialized {
                client: old(ctx).client_account_key,
                contract_id: old(ctx).client_account.next_contract_id,
            }) && final(ctx).signer == old(ctx).signer && final(ctx).client_account_key == old(
                ctx,
            ).client_account_key && final(ctx).client_account == client_after_open(
                old(ctx).client_account,
            ),
        },
{
    initialize_contract(ctx, title, topic)
}

/// Entry point of `initialize_proposal`; see there.
pub fn initialize_proposal_ix(ctx: &mut InitializeProposal, amount: u64) -> (r: Result<
    ProposalInitialized,
    SolanceError,
>)
    requires
        old(ctx).contractor_account.next_proposal_id < u64::MAX,
    ensures
        match initialize_proposal_error(*old(ctx)) {
            Some(e) => r == Err::<ProposalInitialized, SolanceError>(e) && *final(ctx) == *old(
                ctx,
            ),
            None => r == Ok::<ProposalInitialized, SolanceError>(
                (ProposalInitialized {
                    contract: old(ctx).contract_key,
                    contractor: old(ctx).contractor_account_key,
                    proposal_id: old(ctx).contractor_account.next_proposal_id,
                    amount,
                }),
            ) && *final(ctx) == proposal_submitted(*old(ctx), amount),
        },
{
    initialize_proposal(ctx, amount)
}

/// Entry point of `update_proposal`; see there.
pub fn update_proposal_ix(ctx: &mut UpdateProposal, amount: u64) -> (r: Result<
    ProposalUpdated,
    SolanceError,
>)
    ensures
        match update_proposal_error(*old(ctx)) {
            Some(e) => r == Err::<ProposalUpdated, SolanceError>(e) && *final(ctx) == *old(ctx),
            None => r == Ok::<ProposalUpdated, SolanceError>(
                (ProposalUpdated {
                    contract: old(ctx).proposal_account.contract,
                    contractor: old(ctx).proposal_account.contractor,
                    proposal_id: old(ctx).proposal_account.proposal_id,
                    old_amount: old(ctx).proposal_account.amount,
                    new_amount: amount,
                }),
            ) && *final(ctx) == (UpdateProposal {
                proposal_account: Proposal { amount, ..old(ctx).proposal_account },
                ..*old(ctx)
            }),
        },
{
    update_proposal(ctx, amount)
}

/// Entry point of `choose_proposal`; see there.
pub fn choose_proposal_ix(ctx: &mut ChooseProposal) -> (r: Result<(), SolanceError>)
    requires
        old(ctx).contract.status == Status::Opened ==> old(ctx).vault.is_none(),
    ensures
        match choose_proposal_error(*old(ctx)) {
            Some(e) => r == Err::<(), SolanceError>(e) && *final(ctx) == *old(ctx),
            None => r is Ok && *final(ctx) == proposal_chosen(*old(ctx)),
        },
        r is Ok ==> {
            &&& final(ctx).vault == Some(old(ctx).proposal_account.amount)
            &&& final(ctx).contract.amount == Some(old(ctx).proposal_account.amount)
            &&& final(ctx).contract.status == Status::Accepted
            &&& escrow_holds(final(ctx).contract, final(ctx).vault)
        },
{
    choose_proposal(ctx)
}

} // verus!
