use vstd::prelude::*;
use crate::constants::{TITLE_MAX_LENGTH, TOPIC_MAX_LENGTH};
use crate::errors::SolanceError;
use crate::events::ContractInitialized;
use crate::states::{utf8_len, Client, Contract, Pubkey, Status};

verus! {

/// The accounts of opening a contract.
#[derive(Debug, Clone, Copy, PartialEq, Eq, Structural)]
pub struct InitializeContract {
    /// The signing identity.
    pub signer: Pubkey,
    /// The address of the client profile.
    pub client_account_key: Pubkey,
    /// The client profile that opens the contract.
    pub client_account: Client,
}

/// The first guard of contract opening that fails, if any.
pub open spec fn initialize_contract_error(
    ctx: InitializeContract,
    title: Seq<char>,
    topic: Seq<char>,
) -> Option<SolanceError> {
    if ctx.client_account.owner != ctx.signer {
        Some(SolanceError::UnauthorizedAccount)
    } else if utf8_len(title) > TITLE_MAX_LENGTH {
        Some(SolanceError::TitleTooLong)
    } else if utf8_len(topic) > TOPIC_MAX_LENGTH {
        Some(SolanceError::TopicTooLong)
    } else {
        None
    }
}

/// The client profile after it opened one more contract.
pub open spec fn client_after_open(c: Client) -> Client {
    Client { next_contract_id: (c.next_contract_id + 1) as u64, ..c }
}

/// `k` is the contract that `client_key`'s profile `c` opens next: it
/// takes the profile's counter as its id and starts open, with nothing
/// selected.
pub open spec fn is_opened_contract(
    k: Contract,
    client_key: Pubkey,
    c: Client,
    title: Seq<char>,
    topic: Seq<char>,
) -> bool {
    &&& k.client == client_key
    &&& k.contract_id == c.next_contract_id
    &&& k.title@ == title
    &&& k.topic@ == topic
    &&& k.status == Status::Opened
    &&& k.contractor.is_none()
    &&& k.amount.is_none()
    &&& k.accepted_proposal_id.is_none()
}

/// Opens a contract under the signer's client profile: the contract takes
/// the profile's counter as its id, and the counter moves on by one.
/// Returns the new contract, to be stored at its address, and its log entry.
pub fn initialize_contract(ctx: &mut InitializeContract, title: String, topic: String) -> (r:
    Result<(Contract, ContractInitialized), SolanceError>)
    requires
        old(ctx).client_account.next_contract_id < u64::MAX,
    ensures
        match initialize_contract_error(*old(ctx), title@, topic@) {
            Some(e) => r == Err::<(Contract, ContractInitialized), SolanceError>(e) && *final(ctx)
                == *old(ctx),
            None => r is Ok && is_opened_contract(
                r->Ok_0.0,
                old(ctx).client_account_key,
                old(ctx).client_account,
                title@,
                topic@,
            ) && r->Ok_0.1 == (ContractInitialized {
                client: old(ctx).client_account_key,
                contract_id: old(ctx).client_account.next_contract_id,
            }) && final(ctx).signer == old(ctx).signer && final(ctx).client_account_key == old(
                ctx,
            ).client_account_key && final(ctx).client_account == client_after_open(
                old(ctx).client_account,
            ),
        },
{
    if ctx.client_account.owner != ctx.signer {
        return Err(SolanceError::UnauthorizedAccount);
    }
    if title.as_str().as_bytes().len() > TITLE_MAX_LENGTH {
        return Err(SolanceError::TitleTooLong);
    }
    if topic.as_str().as_bytes().len() > TOPIC_MAX_LENGTH {
        return Err(SolanceError::TopicTooLong);
    }
    let contract_id = ctx.client_account.next_contract_id;
    let contract = Contract {
        client: ctx.client_account_key,
        contractor: None,
        contract_id,
        title,
        topic,
        amount: None,
        status: Status::Opened,
        accepted_proposal_id: None,
    };
    ctx.client_account.next_contract_id = contract_id + 1;
    Ok((contract, ContractInitialized { client: ctx.client_account_key, contract_id }))
}

} // verus!
