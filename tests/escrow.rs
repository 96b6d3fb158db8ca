use solance::solance::{
    choose_proposal_ix, initialize_client_ix, initialize_contract_ix, initialize_contractor_ix,
    initialize_proposal_ix, update_proposal_ix,
};
use solance::{
    choose_proposal, claim_payment, initialize_client, initialize_contract, initialize_contractor,
    initialize_proposal, update_proposal, ChooseProposal, ClaimPayment, Client, ClientInitialized,
    Contract, ContractInitialized, Contractor, ContractorInitialized, InitializeClient,
    InitializeContract, InitializeContractor, InitializeProposal, Proposal, ProposalInitialized,
    ProposalUpdated, Pubkey, SolanceError, Status, UpdateProposal,
};

fn key(n: u64) -> Pubkey {
    Pubkey { w0: n, w1: n ^ 0x5555, w2: 7, w3: 0 }
}

const CLIENT: u64 = 1;
const CLIENT_PROFILE: u64 = 2;
const CONTRACTOR: u64 = 3;
const CONTRACTOR_PROFILE: u64 = 4;
const CONTRACT: u64 = 5;
const OTHER: u64 = 99;

fn client_profile(next: u64) -> Client {
    Client { owner: key(CLIENT), next_contract_id: next }
}

fn contractor_profile() -> Contractor {
    Contractor { owner: key(CONTRACTOR), next_proposal_id: 0 }
}

fn open_contract(title: &str, topic: &str) -> Contract {
    let mut ctx = InitializeContract {
        signer: key(CLIENT),
        client_account_key: key(CLIENT_PROFILE),
        client_account: client_profile(0),
    };
    initialize_contract(&mut ctx, title.to_string(), topic.to_string()).unwrap().0
}

fn proposal(amount: u64) -> Proposal {
    Proposal {
        contract: key(CONTRACT),
        contractor: key(CONTRACTOR_PROFILE),
        proposal_id: 0,
        amount,
    }
}

fn choose_ctx(contract: Contract, amount: u64, funds: u64) -> ChooseProposal {
    ChooseProposal {
        signer: key(CLIENT),
        signer_lamports: funds,
        client_account_key: key(CLIENT_PROFILE),
        client_account: client_profile(1),
        contract_key: key(CONTRACT),
        contract,
        proposal_account: proposal(amount),
        contractor_account_key: key(CONTRACTOR_PROFILE),
        contractor_account: contractor_profile(),
        vault: None,
    }
}

fn accepted_contract(amount: u64) -> (Contract, Option<u64>) {
    let mut ctx = choose_ctx(open_contract("Logo", "Design"), amount, 1_000);
    choose_proposal(&mut ctx).unwrap();
    (ctx.contract, ctx.vault)
}

fn claim_ctx(contract: Contract, vault: Option<u64>) -> ClaimPayment {
    ClaimPayment {
        client: key(CLIENT),
        contractor: key(CONTRACTOR),
        contractor_lamports: 10,
        client_account_key: key(CLIENT_PROFILE),
        client_account: client_profile(1),
        contractor_account_key: key(CONTRACTOR_PROFILE),
        contractor_account: contractor_profile(),
        contract,
        vault,
    }
}

fn update_ctx(contract: Contract) -> UpdateProposal {
    UpdateProposal {
        contractor: key(CONTRACTOR),
        contractor_account_key: key(CONTRACTOR_PROFILE),
        contractor_account: contractor_profile(),
        proposal_account: proposal(300),
        contract_key: key(CONTRACT),
        contract,
    }
}

#[test]
fn registers_client_once() {
    let mut ctx = InitializeClient { client: key(CLIENT), client_account: None };
    let event = initialize_client(&mut ctx, 1_700_000_000).unwrap();
    assert_eq!(event, ClientInitialized { owner: key(CLIENT), timestamp: 1_700_000_000 });
    assert_eq!(ctx.client_account, Some(Client { owner: key(CLIENT), next_contract_id: 0 }));
    let before = ctx;
    assert_eq!(initialize_client(&mut ctx, 5), Err(SolanceError::AlreadyInitialized));
    assert_eq!(ctx, before);
}

#[test]
fn registers_contractor_once() {
    let mut ctx = InitializeContractor { contractor: key(CONTRACTOR), contractor_account: None };
    let event = initialize_contractor(&mut ctx, 42).unwrap();
    assert_eq!(event, ContractorInitialized { owner: key(CONTRACTOR), timestamp: 42 });
    assert_eq!(
        ctx.contractor_account,
        Some(Contractor { owner: key(CONTRACTOR), next_proposal_id: 0 })
    );
    assert_eq!(initialize_contractor(&mut ctx, 43), Err(SolanceError::AlreadyInitialized));
}

#[test]
fn open_contract_round_trip() {
    let mut ctx = InitializeContract {
        signer: key(CLIENT),
        client_account_key: key(CLIENT_PROFILE),
        client_account: client_profile(0),
    };
    let (c, event) = initialize_contract(&mut ctx, "T".to_string(), "S".to_string()).unwrap();
    assert_eq!(c.title, "T");
    assert_eq!(c.topic, "S");
    assert_eq!(c.status, Status::Opened);
    assert_eq!(c.client, key(CLIENT_PROFILE));
    assert_eq!(c.contract_id, 0);
    assert_eq!(c.contractor, None);
    assert_eq!(c.amount, None);
    assert_eq!(c.accepted_proposal_id, None);
    assert_eq!(event, ContractInitialized { client: key(CLIENT_PROFILE), contract_id: 0 });
    assert_eq!(ctx.client_account.next_contract_id, 1);
}

#[test]
fn contract_ids_count_up_from_zero() {
    let mut ctx = InitializeContract {
        signer: key(CLIENT),
        client_account_key: key(CLIENT_PROFILE),
        client_account: client_profile(0),
    };
    let mut ids = Vec::new();
    for i in 0..5 {
        let (c, _) = initialize_contract(&mut ctx, format!("t{}", i), "s".to_string()).unwrap();
        ids.push(c.contract_id);
    }
    assert_eq!(ids, vec![0, 1, 2, 3, 4]);
    assert_eq!(ctx.client_account.next_contract_id, 5);
    // a rejected opening consumes no id
    assert_eq!(
        initialize_contract(&mut ctx, "x".repeat(101), "s".to_string()).unwrap_err(),
        SolanceError::TitleTooLong
    );
    let (c, _) = initialize_contract(&mut ctx, "t".to_string(), "s".to_string()).unwrap();
    assert_eq!(c.contract_id, 5);
}

#[test]
fn open_contract_title_and_topic_bounds() {
    let mut ctx = InitializeContract {
        signer: key(CLIENT),
        client_account_key: key(CLIENT_PROFILE),
        client_account: client_profile(0),
    };
    assert!(initialize_contract(&mut ctx, "a".repeat(100), "b".to_string()).is_ok());
    let before = ctx;
    assert_eq!(
        initialize_contract(&mut ctx, "a".repeat(101), "b".to_string()).unwrap_err(),
        SolanceError::TitleTooLong
    );
    assert_eq!(ctx, before);
    assert!(initialize_contract(&mut ctx, "a".to_string(), "b".repeat(500)).is_ok());
    assert_eq!(
        initialize_contract(&mut ctx, "a".to_string(), "b".repeat(501)).unwrap_err(),
        SolanceError::TopicTooLong
    );
    // lengths are counted in UTF-8 bytes: 51 two-byte characters are 102 bytes
    assert_eq!(
        initialize_contract(&mut ctx, "é".repeat(51), "b".to_string()).unwrap_err(),
        SolanceError::TitleTooLong
    );
    assert!(initialize_contract(&mut ctx, "é".repeat(50), "b".to_string()).is_ok());
}

#[test]
fn open_contract_by_stranger_is_unauthorized() {
    let mut ctx = InitializeContract {
        signer: key(OTHER),
        client_account_key: key(CLIENT_PROFILE),
        client_account: client_profile(0),
    };
    assert_eq!(
        initialize_contract(&mut ctx, "a".repeat(200), "b".to_string()).unwrap_err(),
        SolanceError::UnauthorizedAccount
    );
    assert_eq!(ctx.client_account.next_contract_id, 0);
}

#[test]
fn submit_proposal_takes_counter_id() {
    let mut ctx = InitializeProposal {
        contractor: key(CONTRACTOR),
        contractor_account_key: key(CONTRACTOR_PROFILE),
        contractor_account: Contractor { owner: key(CONTRACTOR), next_proposal_id: 7 },
        contract_key: key(CONTRACT),
        proposal_account: None,
    };
    let event = initialize_proposal(&mut ctx, 500).unwrap();
    assert_eq!(
        event,
        ProposalInitialized {
            contract: key(CONTRACT),
            contractor: key(CONTRACTOR_PROFILE),
            proposal_id: 7,
            amount: 500,
        }
    );
    assert_eq!(
        ctx.proposal_account,
        Some(Proposal {
            contract: key(CONTRACT),
            contractor: key(CONTRACTOR_PROFILE),
            proposal_id: 7,
            amount: 500,
        })
    );
    assert_eq!(ctx.contractor_account.next_proposal_id, 8);
    assert_eq!(initialize_proposal(&mut ctx, 1), Err(SolanceError::AlreadyInitialized));
}

#[test]
fn submit_proposal_by_stranger_is_unauthorized() {
    let mut ctx = InitializeProposal {
        contractor: key(OTHER),
        contractor_account_key: key(CONTRACTOR_PROFILE),
        contractor_account: contractor_profile(),
        contract_key: key(CONTRACT),
        proposal_account: None,
    };
    assert_eq!(initialize_proposal(&mut ctx, 500), Err(SolanceError::UnauthorizedAccount));
    assert_eq!(ctx.proposal_account, None);
}

#[test]
fn revise_proposal_while_open() {
    let mut ctx = update_ctx(open_contract("Logo", "Design"));
    let event = update_proposal(&mut ctx, 450).unwrap();
    assert_eq!(
        event,
        ProposalUpdated {
            contract: key(CONTRACT),
            contractor: key(CONTRACTOR_PROFILE),
            proposal_id: 0,
            old_amount: 300,
            new_amount: 450,
        }
    );
    assert_eq!(ctx.proposal_account.amount, 450);
}

#[test]
fn revise_proposal_after_open_is_refused() {
    let (accepted, _) = accepted_contract(300);
    for amount in [0u64, 1, 300, u64::MAX] {
        let mut ctx = update_ctx(accepted.clone());
        assert_eq!(update_proposal(&mut ctx, amount), Err(SolanceError::ProposalCannotBeUpdated));
        assert_eq!(ctx.proposal_account.amount, 300);
    }
    let mut closed = accepted;
    closed.status = Status::Closed;
    let mut ctx = update_ctx(closed);
    assert_eq!(update_proposal(&mut ctx, 1), Err(SolanceError::ProposalCannotBeUpdated));
}

#[test]
fn revise_proposal_guards() {
    let mut ctx = update_ctx(open_contract("Logo", "Design"));
    ctx.contractor = key(OTHER);
    assert_eq!(update_proposal(&mut ctx, 1), Err(SolanceError::UnauthorizedAccount));

    let mut ctx = update_ctx(open_contract("Logo", "Design"));
    ctx.proposal_account.contractor = key(OTHER);
    assert_eq!(update_proposal(&mut ctx, 1), Err(SolanceError::UnauthorizedAccount));

    let mut ctx = update_ctx(open_contract("Logo", "Design"));
    ctx.contract_key = key(OTHER);
    assert_eq!(update_proposal(&mut ctx, 1), Err(SolanceError::InvalidProposalForContract));
    assert_eq!(ctx.proposal_account.amount, 300);
}

#[test]
fn choose_proposal_locks_funds() {
    let mut ctx = choose_ctx(open_contract("Logo", "Design"), 500, 800);
    assert_eq!(choose_proposal(&mut ctx), Ok(()));
    assert_eq!(ctx.vault, Some(500));
    assert_eq!(ctx.signer_lamports, 300);
    assert_eq!(ctx.contract.amount, Some(500));
    assert_eq!(ctx.contract.status, Status::Accepted);
    assert_eq!(ctx.contract.contractor, Some(key(CONTRACTOR_PROFILE)));
    assert_eq!(ctx.contract.accepted_proposal_id, Some(0));
}

#[test]
fn choose_proposal_twice_fails() {
    let mut ctx = choose_ctx(open_contract("Logo", "Design"), 500, 2_000);
    choose_proposal(&mut ctx).unwrap();
    let mut again = choose_ctx(ctx.contract.clone(), 200, 2_000);
    again.vault = ctx.vault;
    assert_eq!(choose_proposal(&mut again), Err(SolanceError::ContractNotOpened));
    assert_eq!(again.vault, Some(500));
    assert_eq!(again.signer_lamports, 2_000);
    assert_eq!(again.contract.amount, Some(500));
}

#[test]
fn choose_proposal_guards() {
    let mut ctx = choose_ctx(open_contract("Logo", "Design"), 500, 800);
    ctx.signer = key(OTHER);
    assert_eq!(choose_proposal(&mut ctx), Err(SolanceError::UnauthorizedAccount));

    let mut ctx = choose_ctx(open_contract("Logo", "Design"), 500, 800);
    ctx.client_account_key = key(OTHER);
    assert_eq!(choose_proposal(&mut ctx), Err(SolanceError::UnauthorizedAccount));

    let mut ctx = choose_ctx(open_contract("Logo", "Design"), 500, 800);
    ctx.proposal_account.contract = key(OTHER);
    assert_eq!(choose_proposal(&mut ctx), Err(SolanceError::InvalidProposalForContract));

    let mut ctx = choose_ctx(open_contract("Logo", "Design"), 500, 800);
    ctx.contractor_account_key = key(OTHER);
    assert_eq!(choose_proposal(&mut ctx), Err(SolanceError::InvalidContractorForProposal));

    let mut ctx = choose_ctx(open_contract("Logo", "Design"), 500, 499);
    assert_eq!(choose_proposal(&mut ctx), Err(SolanceError::InsufficientClientFunds));
    assert_eq!(ctx.vault, None);
    assert_eq!(ctx.signer_lamports, 499);
    assert_eq!(ctx.contract.status, Status::Opened);

    let mut ctx = choose_ctx(open_contract("Logo", "Design"), 500, 500);
    assert_eq!(choose_proposal(&mut ctx), Ok(()));
    assert_eq!(ctx.signer_lamports, 0);
}

#[test]
fn choose_proposal_contract_with_contractor() {
    let mut contract = open_contract("Logo", "Design");
    contract.contractor = Some(key(OTHER));
    let mut ctx = choose_ctx(contract, 500, 800);
    assert_eq!(choose_proposal(&mut ctx), Err(SolanceError::ContractAlreadyHasContractor));
    assert_eq!(ctx.vault, None);
    assert_eq!(ctx.signer_lamports, 800);
}

#[test]
fn claim_payment_needs_closed() {
    let (accepted, vault) = accepted_contract(500);
    let mut ctx = claim_ctx(accepted, vault);
    assert_eq!(claim_payment(&mut ctx), Err(SolanceError::ContractNotClosed));
    assert_eq!(ctx.vault, Some(500));
    assert_eq!(ctx.contractor_lamports, 10);
}

#[test]
fn claim_payment_pays_once() {
    let (mut contract, vault) = accepted_contract(500);
    contract.status = Status::Closed;
    let mut ctx = claim_ctx(contract, vault);
    assert_eq!(claim_payment(&mut ctx), Ok(()));
    assert_eq!(ctx.vault, Some(0));
    assert_eq!(ctx.contractor_lamports, 510);
    assert_eq!(ctx.contract.amount, None);
    assert_eq!(ctx.contract.status, Status::Closed);
    assert_eq!(claim_payment(&mut ctx), Err(SolanceError::MissingAmount));
    assert_eq!(ctx.vault, Some(0));
    assert_eq!(ctx.contractor_lamports, 510);
}

#[test]
fn claim_payment_guards() {
    let (mut contract, vault) = accepted_contract(500);
    contract.status = Status::Closed;

    let mut ctx = claim_ctx(contract.clone(), vault);
    ctx.client = key(OTHER);
    assert_eq!(claim_payment(&mut ctx), Err(SolanceError::UnauthorizedAccount));

    let mut ctx = claim_ctx(contract.clone(), vault);
    ctx.contractor = key(OTHER);
    assert_eq!(claim_payment(&mut ctx), Err(SolanceError::UnauthorizedAccount));

    let mut ctx = claim_ctx(contract.clone(), vault);
    ctx.contractor_account_key = key(OTHER);
    assert_eq!(claim_payment(&mut ctx), Err(SolanceError::InvalidContractorForContract));
    assert_eq!(ctx.vault, Some(500));

    // an open contract has no contractor to pay
    let mut ctx = claim_ctx(open_contract("Logo", "Design"), None);
    assert_eq!(claim_payment(&mut ctx), Err(SolanceError::InvalidContractorForContract));
}

#[test]
fn end_to_end_escrow() {
    let mut reg_client = InitializeClient { client: key(CLIENT), client_account: None };
    initialize_client(&mut reg_client, 1).unwrap();
    let mut reg_contractor =
        InitializeContractor { contractor: key(CONTRACTOR), contractor_account: None };
    initialize_contractor(&mut reg_contractor, 2).unwrap();

    let mut open = InitializeContract {
        signer: key(CLIENT),
        client_account_key: key(CLIENT_PROFILE),
        client_account: reg_client.client_account.unwrap(),
    };
    let (contract, _) =
        initialize_contract(&mut open, "Logo".to_string(), "Design".to_string()).unwrap();
    assert_eq!(contract.contract_id, 0);
    assert_eq!(contract.status, Status::Opened);

    let mut submit = InitializeProposal {
        contractor: key(CONTRACTOR),
        contractor_account_key: key(CONTRACTOR_PROFILE),
        contractor_account: reg_contractor.contractor_account.unwrap(),
        contract_key: key(CONTRACT),
        proposal_account: None,
    };
    initialize_proposal(&mut submit, 500).unwrap();
    let proposal = submit.proposal_account.unwrap();

    let mut choose = ChooseProposal {
        signer: key(CLIENT),
        signer_lamports: 1_000,
        client_account_key: key(CLIENT_PROFILE),
        client_account: open.client_account,
        contract_key: key(CONTRACT),
        contract,
        proposal_account: proposal,
        contractor_account_key: key(CONTRACTOR_PROFILE),
        contractor_account: submit.contractor_account,
        vault: None,
    };
    choose_proposal(&mut choose).unwrap();
    assert_eq!(choose.vault, Some(500));
    assert_eq!(choose.contract.status, Status::Accepted);
    assert_eq!(choose.contract.contractor, Some(key(CONTRACTOR_PROFILE)));

    // the contract is closed outside this program
    let mut contract = choose.contract;
    contract.status = Status::Closed;

    let mut claim = ClaimPayment {
        client: key(CLIENT),
        contractor: key(CONTRACTOR),
        contractor_lamports: 0,
        client_account_key: key(CLIENT_PROFILE),
        client_account: choose.client_account,
        contractor_account_key: key(CONTRACTOR_PROFILE),
        contractor_account: choose.contractor_account,
        contract,
        vault: choose.vault,
    };
    claim_payment(&mut claim).unwrap();
    assert_eq!(claim.contractor_lamports, 500);
    assert_eq!(claim.vault, Some(0));
    assert_eq!(claim.contract.amount, None);
}

#[test]
fn entry_points_forward() {
    let mut reg = InitializeClient { client: key(CLIENT), client_account: None };
    assert!(initialize_client_ix(&mut reg, 9).is_ok());
    let mut open = InitializeContract {
        signer: key(CLIENT),
        client_account_key: key(CLIENT_PROFILE),
        client_account: reg.client_account.unwrap(),
    };
    let (contract, _) =
        initialize_contract_ix(&mut open, "T".to_string(), "S".to_string()).unwrap();
    let mut ctx = choose_ctx(contract.clone(), 500, 100);
    assert_eq!(choose_proposal_ix(&mut ctx), Err(SolanceError::InsufficientClientFunds));

    let mut reg = InitializeContractor { contractor: key(CONTRACTOR), contractor_account: None };
    assert!(initialize_contractor_ix(&mut reg, 9).is_ok());
    let mut submit = InitializeProposal {
        contractor: key(CONTRACTOR),
        contractor_account_key: key(CONTRACTOR_PROFILE),
        contractor_account: reg.contractor_account.unwrap(),
        contract_key: key(CONTRACT),
        proposal_account: None,
    };
    assert_eq!(initialize_proposal_ix(&mut submit, 70).unwrap().proposal_id, 0);
    let mut ctx = update_ctx(contract);
    assert_eq!(update_proposal_ix(&mut ctx, 80).unwrap().old_amount, 300);
    assert_eq!(ctx.proposal_account.amount, 80);
}
