//! Properties that span several instructions or every state.

use vstd::prelude::*;
use crate::errors::SolanceError;
use crate::instructions::choose_proposal::{
    choose_proposal_error, proposal_chosen, ChooseProposal,
};
use crate::instructions::claim_payment::{claim_payment_error, payment_claimed, ClaimPayment};
use crate::instructions::initialize_client::new_client;
use crate::instructions::initialize_contract::{client_after_open, is_opened_contract};
use crate::instructions::update_proposal::{update_proposal_error, UpdateProposal};
use crate::states::{Client, Contract, Pubkey, Status};

verus! {

/// The client profile after `n` contracts were opened from `c`.
pub open spec fn client_after_opens(c: Client, n: nat) -> Client
    decreases n,
{
    if n == 0 {
        c
    } else {
        client_after_open(client_after_opens(c, (n - 1) as nat))
    }
}

/// The contracts a client opens are numbered 0, 1, 2, ... in the order in
/// which they are opened: the contract opened after `i` others from a fresh
/// profile has id `i`, whatever its title and topic, so no id is skipped or
/// given twice.
pub proof fn lemma_contract_ids_sequential(owner: Pubkey, client_key: Pubkey, n: nat)
    requires
        n < u64::MAX,
    ensures
        forall|i: nat, k: Contract, title: Seq<char>, topic: Seq<char>|
            i <= n && #[trigger] is_opened_contract(
                k,
                client_key,
                client_after_opens(new_client(owner), i),
                title,
                topic,
            ) ==> k.contract_id == i,
{
    assert forall|i: nat| i <= n implies #[trigger] client_after_opens(
        new_client(owner),
        i,
    ).next_contract_id == i by {
        lemma_counter_after_opens(owner, i);
    }
}

proof fn lemma_counter_after_opens(owner: Pubkey, i: nat)
    requires
        i < u64::MAX,
    ensures
        client_after_opens(new_client(owner), i).next_contract_id == i,
        client_after_opens(new_client(owner), i).owner == owner,
    decreases i,
{
    if i > 0 {
        lemma_counter_after_opens(owner, (i - 1) as nat);
    }
}

/// A contract's proposal is chosen at most once: after one choice
/// succeeded, choosing again on the resulting contract is rejected, since
/// the contract is no longer open, and nothing moves.
pub proof fn lemma_choose_at_most_once(first: ChooseProposal, second: ChooseProposal)
    requires
        choose_proposal_error(first).is_none(),
        second.contract == proposal_chosen(first).contract,
    ensures
        choose_proposal_error(second) == Some(SolanceError::UnauthorizedAccount)
            || choose_proposal_error(second) == Some(SolanceError::ContractNotOpened),
{
}

/// Once a proposal's contract has left the open status, revising the
/// proposal is rejected with `ProposalCannotBeUpdated`, for any new amount
/// (the amount plays no part in the guards), provided the signer owns the
/// proposal and the proposal targets that contract.
pub proof fn lemma_no_revision_after_open(ctx: UpdateProposal)
    requires
        ctx.contract.status != Status::Opened,
        ctx.contractor_account.owner == ctx.contractor,
        ctx.proposal_account.contractor == ctx.contractor_account_key,
        ctx.proposal_account.contract == ctx.contract_key,
    ensures
        update_proposal_error(ctx) == Some(SolanceError::ProposalCannotBeUpdated),
{
}

/// A proposal that was chosen can no longer be revised through its
/// contract: after a successful choice the contract is not open.
pub proof fn lemma_chosen_proposal_frozen(first: ChooseProposal, revise: UpdateProposal)
    requires
        choose_proposal_error(first).is_none(),
        revise.contract == proposal_chosen(first).contract,
        revise.contractor_account.owner == revise.contractor,
        revise.proposal_account.contractor == revise.contractor_account_key,
        revise.proposal_account.contract == revise.contract_key,
    ensures
        update_proposal_error(revise) == Some(SolanceError::ProposalCannotBeUpdated),
{
}

/// Payment is only claimed from a closed contract: an authorized claim on
/// an open or accepted contract is rejected with `ContractNotClosed`.
pub proof fn lemma_claim_needs_closed(ctx: ClaimPayment)
    requires
        ctx.client_account.owner == ctx.client,
        ctx.contract.client == ctx.client_account_key,
        ctx.contractor_account.owner == ctx.contractor,
        ctx.contract.contractor == Some(ctx.contractor_account_key),
        ctx.contract.status == Status::Opened || ctx.contract.status == Status::Accepted,
    ensures
        claim_payment_error(ctx) == Some(SolanceError::ContractNotClosed),
{
}

/// Payment is claimed at most once: claiming again after a successful
/// claim is rejected with `MissingAmount` (and a rejected claim moves no
/// funds).
pub proof fn lemma_claim_at_most_once(ctx: ClaimPayment)
    requires
        claim_payment_error(ctx).is_none(),
    ensures
        claim_payment_error(payment_claimed(ctx)) == Some(SolanceError::MissingAmount),
{
}

} // verus!
