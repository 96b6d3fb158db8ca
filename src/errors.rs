use vstd::prelude::*;

verus! {

/// Why an instruction was rejected. A rejected instruction changes nothing.
#[derive(Debug, Clone, Copy, PartialEq, Eq, Structural)]
pub enum SolanceError {
    /// The signer does not own a record, or a record does not belong to its parent.
    UnauthorizedAccount,
    /// The contract title is longer than allowed.
    TitleTooLong,
    /// The contract topic is longer than allowed.
    TopicTooLong,
    /// The proposal's contract has left the `Opened` status.
    ProposalCannotBeUpdated,
    /// The contract is not in the `Opened` status.
    ContractNotOpened,
    /// The contract already has a selected contractor.
    ContractAlreadyHasContractor,
    /// The proposal does not target this contract.
    InvalidProposalForContract,
    /// The contractor account is not the proposal's contractor.
    InvalidContractorForProposal,
    /// The contractor account is not the contract's selected contractor.
    InvalidContractorForContract,
    /// The client cannot fund the escrow.
    InsufficientClientFunds,
    /// The contract is not in the `Closed` status.
    ContractNotClosed,
    /// The contract holds no escrowed amount.
    MissingAmount,
    /// The account to be created already exists.
    AlreadyInitialized,
}

} // verus!
