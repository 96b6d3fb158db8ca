use vstd::prelude::*;
use crate::states::Pubkey;

verus! {

/// Logged when a client profile is created.
#[derive(Debug, Clone, Copy, PartialEq, Eq, Structural)]
pub struct ClientInitialized {
    pub owner: Pubkey,
    pub timestamp: i64,
}

/// Logged when a contractor profile is created.
#[derive(Debug, Clone, Copy, PartialEq, Eq, Structural)]
pub struct ContractorInitialized {
    pub owner: Pubkey,
    pub timestamp: i64,
}

/// Logged when a contract is opened.
#[derive(Debug, Clone, Copy, PartialEq, Eq, Structural)]
pub struct ContractInitialized {
    pub client: Pubkey,
    pub contract_id: u64,
}

/// Logged when a proposal is submitted.
#[derive(Debug, Clone, Copy, PartialEq, Eq, Structural)]
pub struct ProposalInitialized {
    pub contract: Pubkey,
    pub contractor: Pubkey,
    pub proposal_id: u64,
    pub amount: u64,
}

/// Logged when a proposal's amount is revised.
#[derive(Debug, Clone, Copy, PartialEq, Eq, Structural)]
pub struct ProposalUpdated {
    pub contract: Pubkey,
    pub contractor: Pubkey,
    pub proposal_id: u64,
    pub old_amount: u64,
    pub new_amount: u64,
}

} // verus!
