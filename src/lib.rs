//! An escrow marketplace: clients post contracts, contractors bid on them
//! with proposals, the client locks the chosen bid in a per-contract vault,
//! and the contractor is paid out of the vault once the contract is closed.
//!
//! Every instruction is a verified state transition over the accounts that
//! the host hands it; the host provides signer checks, address derivation,
//! storage and atomic commit.

pub mod constants;
pub mod errors;
pub mod events;
pub mod states;

pub use errors::SolanceError;
pub use events::{
    ClientInitialized, ContractInitialized, ContractorInitialized, ProposalInitialized,
    ProposalUpdated,
};
pub use states::{Client, Contract, Contractor, Proposal, Pubkey, Status};
pub mod instructions;
pub mod laws;
pub mod solance;

pub use instructions::choose_proposal::{choose_proposal, ChooseProposal};
pub use instructions::claim_payment::{claim_payment, ClaimPayment};
pub use instructions::initialize_client::{initialize_client, InitializeClient};
pub use instructions::initialize_contract::{initialize_contract, InitializeContract};
pub use instructions::initialize_contractor::{initialize_contractor, InitializeContractor};
pub use instructions::initialize_proposal::{initialize_proposal, InitializeProposal};
pub use instructions::update_proposal::{update_proposal, UpdateProposal};
