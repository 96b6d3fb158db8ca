use vstd::prelude::*;
use crate::errors::SolanceError;
use crate::events::ClientInitialized;
use crate::states::{Client, Pubkey};

verus! {

/// The accounts of client registration.
#[derive(Debug, Clone, Copy, PartialEq, Eq, Structural)]
pub struct InitializeClient {
    /// The signing identity that will own the profile.
    pub client: Pubkey,
    /// What the profile's address holds: `None` until it is created.
    pub client_account: Option<Client>,
}

/// A fresh client profile: no contract opened yet.
pub open spec fn new_client(owner: Pubkey) -> Client {
    Client { owner, next_contract_id: 0 }
}

/// Creates the signer's client profile, logging the registration at
/// `timestamp` (the host's wall-clock time). Fails when the profile exists.
pub fn initialize_client(ctx: &mut InitializeClient, timestamp: i64) -> (r: Result<
    ClientInitialized,
    SolanceError,
>)
    ensures
        old(ctx).client_account.is_some() ==> r == Err::<ClientInitialized, SolanceError>(
            SolanceError::AlreadyInitialized,
        ) && *final(ctx) == *old(ctx),
        old(ctx).client_account.is_none() ==> r == Ok::<ClientInitialized, SolanceError>(
            (ClientInitialized { owner: old(ctx).client, timestamp }),
        ) && final(ctx).client == old(ctx).client && final(ctx).client_account == Some(
            new_client(old(ctx).client),
        ),
{
    if ctx.client_account.is_some() {
        return Err(SolanceError::AlreadyInitialized);
    }
    ctx.client_account = Some(Client { owner: ctx.client, next_contract_id: 0 });
    Ok(ClientInitialized { owner: ctx.client, timestamp })
}

} // verus!
