pub mod initialize_client;
pub mod initialize_contractor;
pub mod initialize_contract;
pub mod initialize_proposal;
pub mod update_proposal;
pub mod choose_proposal;
pub mod claim_payment;
