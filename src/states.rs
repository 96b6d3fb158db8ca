use vstd::prelude::*;
use vstd::utf8::encode_utf8;

verus! {

/// A 32-byte account address or signer identity, held as four
/// little-endian 64-bit words (bytes 0..8 in `w0`, and so on).
#[derive(Debug, Clone, Copy, PartialEq, Eq, Structural)]
pub struct Pubkey {
    pub w0: u64,
    pub w1: u64,
    pub w2: u64,
    pub w3: u64,
}

/// Where a contract stands in its life.
#[derive(Debug, Clone, Copy, PartialEq, Eq, Structural)]
pub enum Status {
    Opened,
    Accepted,
    Closed,
    Paid,
}

/// A client profile: one per owner, counting the contracts it opened.
#[derive(Debug, Clone, Copy, PartialEq, Eq, Structural)]
pub struct Client {
    pub owner: Pubkey,
    pub next_contract_id: u64,
}

/// A contract posted by a client. `contractor`, `amount` and
/// `accepted_proposal_id` are set when a proposal is chosen; `amount` is
/// cleared again when the contractor is paid.
#[derive(Debug, Clone)]
pub struct Contract {
    pub client: Pubkey,
    pub contractor: Option<Pubkey>,
    pub contract_id: u64,
    pub title: String,
    pub topic: String,
    pub amount: Option<u64>,
    pub status: Status,
    pub accepted_proposal_id: Option<u64>,
}

/// A contractor profile: one per owner, counting the proposals it submitted.
#[derive(Debug, Clone, Copy, PartialEq, Eq, Structural)]
pub struct Contractor {
    pub owner: Pubkey,
    pub next_proposal_id: u64,
}

/// A contractor's bid on a contract.
#[derive(Debug, Clone, Copy, PartialEq, Eq, Structural)]
pub struct Proposal {
    pub contract: Pubkey,
    pub contractor: Pubkey,
    pub proposal_id: u64,
    pub amount: u64,
}

/// Length of a text in UTF-8 bytes.
pub open spec fn utf8_len(s: Seq<char>) -> nat {
    encode_utf8(s).len()
}

/// The escrowed amount that a contract records, zero when none.
pub open spec fn escrowed(c: Contract) -> nat {
    match c.amount {
        Some(a) => a as nat,
        None => 0,
    }
}

/// The contract's optional fields agree with its status: nothing is
/// selected while it is open; an accepted contract has a contractor, a
/// proposal and an amount; a closed one keeps its contractor and proposal
/// (its amount is cleared once paid).
pub open spec fn contract_wf(c: Contract) -> bool {
    match c.status {
        Status::Opened => c.contractor.is_none() && c.amount.is_none()
            && c.accepted_proposal_id.is_none(),
        Status::Accepted => c.contractor.is_some() && c.amount.is_some()
            && c.accepted_proposal_id.is_some(),
        Status::Closed | Status::Paid => c.contractor.is_some()
            && c.accepted_proposal_id.is_some(),
    }
}

/// The escrow invariant: the contract is well formed and its vault, `None`
/// when it does not exist, holds exactly the amount the contract records.
/// An open contract has no vault.
pub open spec fn escrow_holds(c: Contract, vault: Option<u64>) -> bool {
    &&& contract_wf(c)
    &&& match vault {
        None => c.status == Status::Opened,
        Some(v) => c.status != Status::Opened && v as nat == escrowed(c),
    }
}

} // verus!
