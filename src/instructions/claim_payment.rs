use vstd::prelude::*;
use crate::errors::SolanceError;
use crate::states::{escrow_holds, escrowed, Client, Contract, Contractor, Pubkey, Status};

verus! {

/// The accounts of paying a contractor out of a contract's vault.
#[derive(Debug, Clone)]
pub struct ClaimPayment {
    /// The signing client identity.
    pub client: Pubkey,
    /// The contractor identity that receives the funds.
    pub contractor: Pubkey,
    /// The contractor identity's funds.
    pub contractor_lamports: u64,
    /// The address of the client profile.
    pub client_account_key: Pubkey,
    /// The client profile that owns the contract.
    pub client_account: Client,
    /// The address of the contractor profile.
    pub contractor_account_key: Pubkey,
    /// The contractor profile selected for the contract.
    pub contractor_account: Contractor,
    /// The contract.
    pub contract: Contract,
    /// The funds in the contract's vault: `None` when it does not exist.
    pub vault: Option<u64>,
}

/// The first guard of a payment claim that fails, if any.
pub open spec fn claim_payment_error(ctx: ClaimPayment) -> Option<SolanceError> {
    if ctx.client_account.owner != ctx.client || ctx.contract.client != ctx.client_account_key {
        Some(SolanceError::UnauthorizedAccount)
    } else if ctx.contractor_account.owner != ctx.contractor {
        Some(SolanceError::UnauthorizedAccount)
    } else if ctx.contract.contractor != Some(ctx.contractor_account_key) {
        Some(SolanceError::InvalidContractorForContract)
    } else if ctx.contract.status != Status::Closed {
        Some(SolanceError::ContractNotClosed)
    } else if ctx.contract.amount.is_none() {
        Some(SolanceError::MissingAmount)
    } else {
        None
    }
}

/// The accounts after a successful claim: the vault's funds have moved to
/// the contractor and the contract no longer records an amount.
pub open spec fn payment_claimed(ctx: ClaimPayment) -> ClaimPayment {
    let amount = ctx.contract.amount->Some_0;
    ClaimPayment {
        contractor_lamports: (ctx.contractor_lamports + amount) as u64,
        contract: Contract { amount: None, ..ctx.contract },
        vault: Some((ctx.vault->Some_0 - amount) as u64),
        ..ctx
    }
}

/// Pays the contractor of a closed contract out of its vault: the vault is
/// debited and the contractor credited by exactly the contract's amount,
/// which is then cleared, so a second claim moves nothing.
pub fn claim_payment(ctx: &mut ClaimPayment) -> (r: Result<(), SolanceError>)
    requires
        escrow_holds(old(ctx).contract, old(ctx).vault),
        old(ctx).contractor_lamports + escrowed(old(ctx).contract) <= u64::MAX,
    ensures
        escrow_holds(final(ctx).contract, final(ctx).vault),
        match claim_payment_error(*old(ctx)) {
            Some(e) => r == Err::<(), SolanceError>(e) && *final(ctx) == *old(ctx),
            None => r is Ok && *final(ctx) == payment_claimed(*old(ctx)),
        },
        r is Ok ==> {
            &&& final(ctx).vault == Some(0u64)
            &&& final(ctx).contractor_lamports == old(ctx).contractor_lamports
                + old(ctx).contract.amount->Some_0
            &&& final(ctx).contract.amount.is_none()
        },
{
    if ctx.client_account.owner != ctx.client || ctx.contract.client != ctx.client_account_key {
        return Err(SolanceError::UnauthorizedAccount);
    }
    if ctx.contractor_account.owner != ctx.contractor {
        return Err(SolanceError::UnauthorizedAccount);
    }
    match ctx.contract.contractor {
        Some(k) => {
            if k != ctx.contractor_account_key {
                return Err(SolanceError::InvalidContractorForContract);
            }
        },
        None => {
            return Err(SolanceError::InvalidContractorForContract);
        },
    }
    if ctx.contract.status != Status::Closed {
        return Err(SolanceError::ContractNotClosed);
    }
    let amount = match ctx.contract.amount {
        Some(a) => a,
        None => {
            return Err(SolanceError::MissingAmount);
        },
    };
    // a closed contract's vault exists and holds its amount
    let held = ctx.vault.unwrap();
    ctx.vault = Some(held - amount);
    ctx.contractor_lamports = ctx.contractor_lamports + amount;
    ctx.contract.amount = None;
    Ok(())
}

} // verus!
