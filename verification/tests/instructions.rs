use hello_dao::account::AccountInfo;
use hello_dao::address::{find_program_address, is_system_program};
use hello_dao::error::{BorshError, DaoError};
use hello_dao::instructions::{
    CastVoteV1, CastVoteV1Accounts, CreateProposalV1, CreateProposalV1Accounts, CreateProposalV1InstructionData,
    ExecuteProposalV1, ExecuteProposalV1Accounts, InitDaoV1, InitDaoV1Accounts, InitDaoV1InstructionData,
};
use hello_dao::pubkey::Pubkey;
use hello_dao::states::{DaoV1, ProposalStatus, ProposalV1, VaultV1};
use solana_program::pubkey::Pubkey as SolPubkey;

const PROGRAM: Pubkey = Pubkey([7u8; 32]);
const SYSTEM: Pubkey = Pubkey([0u8; 32]);

fn sol(k: &Pubkey) -> SolPubkey {
    SolPubkey::new_from_array(k.0)
}

fn pda(seeds: &[&[u8]]) -> (Pubkey, u8) {
    let (k, b) = SolPubkey::find_program_address(seeds, &sol(&PROGRAM));
    (Pubkey(k.to_bytes()), b)
}

fn dao_key() -> Pubkey {
    pda(&[b"dao_v1"]).0
}

fn vault_key() -> Pubkey {
    pda(&[b"vault_v1"]).0
}

fn proposal_key(author: &Pubkey, recipient: &Pubkey) -> (Pubkey, u8) {
    pda(&[b"proposal_v1", &author.0, &recipient.0])
}

fn account(key: Pubkey, is_signer: bool, is_writable: bool, lamports: u64, data: Vec<u8>) -> AccountInfo {
    AccountInfo { key, is_signer, is_writable, lamports, data }
}

fn init_accounts() -> Vec<AccountInfo> {
    vec![
        account(Pubkey([1; 32]), true, true, 10_000_000, vec![]),
        account(dao_key(), false, true, 0, vec![]),
        account(vault_key(), false, true, 0, vec![]),
        account(SYSTEM, false, false, 1, vec![]),
    ]
}

#[test]
fn derived_addresses_match_the_runtime() {
    let seeds = vec![b"dao_v1".to_vec()];
    let expected = pda(&[b"dao_v1"]);
    assert_eq!(find_program_address(&seeds, &PROGRAM), Ok(expected));
    let author = Pubkey([1; 32]);
    let recipient = Pubkey([2; 32]);
    let seeds = vec![b"proposal_v1".to_vec(), author.0.to_vec(), recipient.0.to_vec()];
    assert_eq!(find_program_address(&seeds, &PROGRAM), Ok(proposal_key(&author, &recipient)));
}

#[test]
fn too_many_seeds_give_no_address() {
    let seeds = vec![vec![1u8]; 17];
    assert_eq!(find_program_address(&seeds, &PROGRAM), Err(DaoError::InvalidSeeds));
    let long_seed = vec![vec![1u8; 33]];
    assert_eq!(find_program_address(&long_seed, &PROGRAM), Err(DaoError::InvalidSeeds));
}

#[test]
fn system_program_is_all_zero_bytes() {
    assert!(is_system_program(&SYSTEM));
    assert!(!is_system_program(&Pubkey([1; 32])));
    assert_eq!(solana_system_interface::program::ID.to_bytes(), [0u8; 32]);
}

#[test]
fn init_accounts_are_checked_in_order() {
    let mut a = init_accounts();
    a.pop();
    assert_eq!(InitDaoV1Accounts::try_from(a).err(), Some(DaoError::NotEnoughAccountKeys));
    let mut a = init_accounts();
    a.push(account(Pubkey([9; 32]), false, false, 0, vec![]));
    assert_eq!(InitDaoV1Accounts::try_from(a).err(), Some(DaoError::NotEnoughAccountKeys));
    let mut a = init_accounts();
    a[0].is_signer = false;
    a[0].is_writable = false;
    assert_eq!(InitDaoV1Accounts::try_from(a).err(), Some(DaoError::MissingRequiredSignature));
    let mut a = init_accounts();
    a[2].is_writable = false;
    assert_eq!(InitDaoV1Accounts::try_from(a).err(), Some(DaoError::InvalidAccountData));
    let mut a = init_accounts();
    a[3].key = Pubkey([3; 32]);
    assert_eq!(InitDaoV1Accounts::try_from(a).err(), Some(DaoError::IncorrectProgramId));
    let a = init_accounts();
    let checked = InitDaoV1Accounts::try_from(a.clone()).unwrap();
    assert_eq!(checked.admin, a[0]);
    assert_eq!(checked.system_program, a[3]);
}

#[test]
fn init_refuses_a_foreign_dao_account() {
    let data = InitDaoV1InstructionData { vote_threshold: 10, vested_amount: 100 };
    let mut a = init_accounts();
    a[1].key = Pubkey([5; 32]);
    assert_eq!(InitDaoV1::try_from(a, data, PROGRAM).err(), Some(DaoError::InvalidAccountData));
    let mut a = init_accounts();
    a[2].key = dao_key();
    assert_eq!(InitDaoV1::try_from(a, data, PROGRAM).err(), Some(DaoError::InvalidAccountData));
}

#[test]
fn init_builds_the_create_account_calls_and_records() {
    let data = InitDaoV1InstructionData { vote_threshold: 10, vested_amount: 100 };
    let mut ix = InitDaoV1::try_from(init_accounts(), data, PROGRAM).unwrap();
    assert_eq!(ix.dao_bump, pda(&[b"dao_v1"]).1);
    assert_eq!(ix.vault_bump, pda(&[b"vault_v1"]).1);

    let req = ix.dao_account_request(1_000);
    let expected = solana_system_interface::instruction::create_account(
        &sol(&Pubkey([1; 32])),
        &sol(&dao_key()),
        1_000,
        DaoV1::LEN as u64,
        &sol(&PROGRAM),
    );
    assert_eq!(req.instruction.data, expected.data);
    assert_eq!(req.instruction.program_id, SYSTEM);
    assert_eq!(req.instruction.accounts.len(), 2);
    assert_eq!(req.instruction.accounts[1].pubkey, dao_key());
    assert!(req.instruction.accounts[1].is_signer && req.instruction.accounts[1].is_writable);
    assert_eq!(req.signer_seeds, vec![b"dao_v1".to_vec(), vec![ix.dao_bump]]);

    let mut expected_data = vec![0u8, 0, 0, 0];
    expected_data.extend_from_slice(&1_000u64.to_le_bytes());
    expected_data.extend_from_slice(&40u64.to_le_bytes());
    expected_data.extend_from_slice(&PROGRAM.0);
    assert_eq!(req.instruction.data, expected_data);

    let vreq = ix.vault_account_request(500);
    let mut vault_ix_data = vec![0u8, 0, 0, 0];
    vault_ix_data.extend_from_slice(&600u64.to_le_bytes());
    vault_ix_data.extend_from_slice(&8u64.to_le_bytes());
    vault_ix_data.extend_from_slice(&PROGRAM.0);
    assert_eq!(vreq.instruction.data, vault_ix_data);

    assert_eq!(ix.init_dao(), Err(DaoError::BorshIoError(BorshError::WriteZero)));
    ix.accounts.dao.data = vec![0u8; DaoV1::LEN];
    ix.accounts.vault.data = vec![0u8; VaultV1::LEN];
    assert_eq!(ix.init_dao(), Ok(()));
    assert_eq!(ix.init_vault(), Ok(()));
    assert_eq!(
        DaoV1::try_from_slice(&ix.accounts.dao.data),
        Ok(DaoV1 { admin: Pubkey([1; 32]), vote_threshold: 10 })
    );
    assert_eq!(VaultV1::try_from_slice(&ix.accounts.vault.data), Ok(VaultV1 { amount: 100 }));
}

fn create_accounts(author: Pubkey, recipient: Pubkey, vault_amount: u64) -> Vec<AccountInfo> {
    vec![
        account(author, true, true, 5_000_000, vec![]),
        account(proposal_key(&author, &recipient).0, false, true, 0, vec![]),
        account(vault_key(), false, true, 2_000_000, VaultV1 { amount: vault_amount }.to_bytes()),
        account(SYSTEM, false, false, 1, vec![]),
    ]
}

#[test]
fn create_proposal_checks_accounts_and_addresses() {
    let author = Pubkey([1; 32]);
    let recipient = Pubkey([2; 32]);
    let mut a = create_accounts(author, recipient, 100);
    a[1].is_writable = false;
    assert_eq!(CreateProposalV1Accounts::try_from(a).err(), Some(DaoError::InvalidAccountData));
    let data = CreateProposalV1InstructionData { target_recipient: Pubkey([3; 32]), amount: 10 };
    let a = create_accounts(author, recipient, 100);
    assert_eq!(CreateProposalV1::try_from(a, data, PROGRAM).err(), Some(DaoError::InvalidAccountData));
    let mut a = create_accounts(author, recipient, 100);
    a[2].key = dao_key();
    let data = CreateProposalV1InstructionData { target_recipient: recipient, amount: 10 };
    assert_eq!(CreateProposalV1::try_from(a, data, PROGRAM).err(), Some(DaoError::InvalidAccountData));
}

#[test]
fn proposal_over_budget_is_refused() {
    let author = Pubkey([1; 32]);
    let recipient = Pubkey([2; 32]);
    let data = CreateProposalV1InstructionData { target_recipient: recipient, amount: 101 };
    let ix = CreateProposalV1::try_from(create_accounts(author, recipient, 100), data, PROGRAM).unwrap();
    assert_eq!(ix.validate_budget(), Err(DaoError::InsufficientFunds));
    let data = CreateProposalV1InstructionData { target_recipient: recipient, amount: 100 };
    let ix = CreateProposalV1::try_from(create_accounts(author, recipient, 100), data, PROGRAM).unwrap();
    assert_eq!(ix.validate_budget(), Ok(()));
    let mut a = create_accounts(author, recipient, 100);
    a[2].data = vec![0u8; 3];
    let ix = CreateProposalV1::try_from(a, data, PROGRAM).unwrap();
    assert_eq!(ix.validate_budget(), Err(DaoError::BorshIoError(BorshError::UnexpectedLength)));
}

#[test]
fn create_proposal_writes_an_active_proposal() {
    let author = Pubkey([1; 32]);
    let recipient = Pubkey([2; 32]);
    let data = CreateProposalV1InstructionData { target_recipient: recipient, amount: 70 };
    let mut ix = CreateProposalV1::try_from(create_accounts(author, recipient, 100), data, PROGRAM).unwrap();
    let (_, bump) = proposal_key(&author, &recipient);
    assert_eq!(ix.proposal_bump, bump);
    let req = ix.proposal_account_request(900);
    assert_eq!(req.signer_seeds, vec![b"proposal_v1".to_vec(), author.0.to_vec(), recipient.0.to_vec(), vec![bump]]);
    assert_eq!(&req.instruction.data[12..20], &81u64.to_le_bytes());
    ix.accounts.proposal.data = vec![0u8; ProposalV1::LEN];
    assert_eq!(ix.init_proposal(), Ok(()));
    assert_eq!(
        ProposalV1::try_from_slice(&ix.accounts.proposal.data),
        Ok(ProposalV1 { author, target_recipient: recipient, amount: 70, current_vote: 0, status: ProposalStatus::Active })
    );
}

fn stored_proposal(author: Pubkey, recipient: Pubkey, amount: u64, votes: u64, status: ProposalStatus) -> AccountInfo {
    let p = ProposalV1 { author, target_recipient: recipient, amount, current_vote: votes, status };
    account(proposal_key(&author, &recipient).0, false, true, 1_000, p.to_bytes())
}

fn stored_dao(threshold: u64) -> AccountInfo {
    account(dao_key(), false, false, 1_000, DaoV1 { admin: Pubkey([1; 32]), vote_threshold: threshold }.to_bytes())
}

#[test]
fn vote_adds_the_voters_balance_and_passes_at_threshold() {
    let author = Pubkey([1; 32]);
    let recipient = Pubkey([2; 32]);
    let accounts = vec![
        account(Pubkey([9; 32]), true, false, 600, vec![]),
        stored_proposal(author, recipient, 50, 0, ProposalStatus::Active),
        stored_dao(1_000),
    ];
    let mut ix = CastVoteV1::try_from(accounts, PROGRAM).unwrap();
    assert_eq!(ix.vote(), Ok(()));
    let p = ProposalV1::try_from_slice(&ix.accounts.proposal.data).unwrap();
    assert_eq!(p.current_vote, 600);
    assert_eq!(p.status, ProposalStatus::Active);
    assert_eq!(ix.vote(), Ok(()));
    let p = ProposalV1::try_from_slice(&ix.accounts.proposal.data).unwrap();
    assert_eq!(p.current_vote, 1_200);
    assert_eq!(p.status, ProposalStatus::Passed);
    let before = ix.accounts.proposal.data.clone();
    assert_eq!(ix.vote(), Err(DaoError::InvalidAccountData));
    assert_eq!(ix.accounts.proposal.data, before);
}

#[test]
fn vote_saturates_instead_of_overflowing() {
    let author = Pubkey([1; 32]);
    let recipient = Pubkey([2; 32]);
    let accounts = vec![
        account(Pubkey([9; 32]), true, false, u64::MAX, vec![]),
        stored_proposal(author, recipient, 50, 10, ProposalStatus::Active),
        stored_dao(u64::MAX),
    ];
    let mut ix = CastVoteV1::try_from(accounts, PROGRAM).unwrap();
    assert_eq!(ix.vote(), Ok(()));
    let p = ProposalV1::try_from_slice(&ix.accounts.proposal.data).unwrap();
    assert_eq!(p.current_vote, u64::MAX);
    assert_eq!(p.status, ProposalStatus::Passed);
}

#[test]
fn vote_refuses_wrong_accounts() {
    let author = Pubkey([1; 32]);
    let recipient = Pubkey([2; 32]);
    let mut accounts = vec![
        account(Pubkey([9; 32]), false, false, 5, vec![]),
        stored_proposal(author, recipient, 50, 0, ProposalStatus::Active),
        stored_dao(10),
    ];
    assert_eq!(CastVoteV1Accounts::try_from(accounts.clone()).err(), Some(DaoError::MissingRequiredSignature));
    accounts[0].is_signer = true;
    accounts[2].key = vault_key();
    assert_eq!(CastVoteV1::try_from(accounts.clone(), PROGRAM).err(), Some(DaoError::InvalidAccountData));
    accounts[2].key = dao_key();
    accounts[1].key = Pubkey([4; 32]);
    let mut ix = CastVoteV1::try_from(accounts, PROGRAM).unwrap();
    assert_eq!(ix.vote(), Err(DaoError::InvalidAccountData));
}

fn execute_accounts(proposal: AccountInfo, vault_lamports: u64, vault_amount: u64, recipient: Pubkey) -> Vec<AccountInfo> {
    vec![
        account(Pubkey([8; 32]), true, true, 10, vec![]),
        proposal,
        account(vault_key(), false, true, vault_lamports, VaultV1 { amount: vault_amount }.to_bytes()),
        account(recipient, false, true, 40, vec![]),
        stored_dao(5),
    ]
}

#[test]
fn execute_pays_the_recipient_from_the_treasury() {
    let author = Pubkey([1; 32]);
    let recipient = Pubkey([2; 32]);
    let p = stored_proposal(author, recipient, 300, 9, ProposalStatus::Passed);
    let mut ix = ExecuteProposalV1::try_from(execute_accounts(p, 1_000, 500, recipient), PROGRAM).unwrap();
    assert_eq!(ix.execute_proposal(), Ok(()));
    assert_eq!(ix.accounts.vault.lamports, 700);
    assert_eq!(ix.accounts.target_recipient.lamports, 340);
    assert_eq!(VaultV1::try_from_slice(&ix.accounts.vault.data), Ok(VaultV1 { amount: 200 }));
    let p = ProposalV1::try_from_slice(&ix.accounts.proposal.data).unwrap();
    assert_eq!(p.status, ProposalStatus::Executed);
    assert_eq!(ix.execute_proposal(), Err(DaoError::InvalidAccountData));
    assert_eq!(ix.accounts.vault.lamports, 700);
}

#[test]
fn execute_refusals_change_nothing() {
    let author = Pubkey([1; 32]);
    let recipient = Pubkey([2; 32]);
    let active = stored_proposal(author, recipient, 300, 0, ProposalStatus::Active);
    let mut ix = ExecuteProposalV1::try_from(execute_accounts(active, 1_000, 500, recipient), PROGRAM).unwrap();
    assert_eq!(ix.execute_proposal(), Err(DaoError::InvalidAccountData));

    let passed = stored_proposal(author, recipient, 300, 9, ProposalStatus::Passed);
    let mut ix = ExecuteProposalV1::try_from(execute_accounts(passed.clone(), 1_000, 500, Pubkey([6; 32])), PROGRAM).unwrap();
    assert_eq!(ix.execute_proposal(), Err(DaoError::InvalidAccountData));

    let mut ix = ExecuteProposalV1::try_from(execute_accounts(passed.clone(), 299, 500, recipient), PROGRAM).unwrap();
    assert_eq!(ix.execute_proposal(), Err(DaoError::InsufficientFunds));
    assert_eq!(ix.accounts.vault.lamports, 299);

    let mut ix = ExecuteProposalV1::try_from(execute_accounts(passed, 1_000, 299, recipient), PROGRAM).unwrap();
    assert_eq!(ix.execute_proposal(), Err(DaoError::InsufficientFunds));
    assert_eq!(ix.accounts.vault.lamports, 1_000);
    assert_eq!(ix.accounts.target_recipient.lamports, 40);
}

#[test]
fn execute_checks_accounts() {
    let author = Pubkey([1; 32]);
    let recipient = Pubkey([2; 32]);
    let passed = stored_proposal(author, recipient, 300, 9, ProposalStatus::Passed);
    let mut a = execute_accounts(passed.clone(), 1_000, 500, recipient);
    a[3].is_writable = false;
    assert_eq!(ExecuteProposalV1Accounts::try_from(a).err(), Some(DaoError::InvalidAccountData));
    let mut a = execute_accounts(passed.clone(), 1_000, 500, recipient);
    a.truncate(4);
    assert_eq!(ExecuteProposalV1Accounts::try_from(a).err(), Some(DaoError::NotEnoughAccountKeys));
    let mut a = execute_accounts(passed, 1_000, 500, recipient);
    a[2].key = Pubkey([3; 32]);
    assert_eq!(ExecuteProposalV1::try_from(a, PROGRAM).err(), Some(DaoError::InvalidAccountData));
}

#[test]
fn whole_lifecycle_init_propose_vote_execute() {
    let admin = Pubkey([1; 32]);
    let data = InitDaoV1InstructionData { vote_threshold: 1_000, vested_amount: 5_000 };
    let mut init = InitDaoV1::try_from(init_accounts(), data, PROGRAM).unwrap();
    init.accounts.dao.data = vec![0u8; DaoV1::LEN];
    init.accounts.vault.data = vec![0u8; VaultV1::LEN];
    init.init_dao().unwrap();
    init.init_vault().unwrap();
    let dao_data = init.accounts.dao.data.clone();
    let mut vault = init.accounts.vault.clone();
    vault.lamports = 5_000 + 900;

    let recipient = Pubkey([2; 32]);
    let pdata = CreateProposalV1InstructionData { target_recipient: recipient, amount: 4_000 };
    let accs = vec![
        account(admin, true, true, 1_000_000, vec![]),
        account(proposal_key(&admin, &recipient).0, false, true, 0, vec![]),
        vault.clone(),
        account(SYSTEM, false, false, 1, vec![]),
    ];
    let mut create = CreateProposalV1::try_from(accs, pdata, PROGRAM).unwrap();
    create.validate_budget().unwrap();
    create.accounts.proposal.data = vec![0u8; ProposalV1::LEN];
    create.init_proposal().unwrap();
    let proposal = create.accounts.proposal.clone();

    let mut dao = stored_dao(0);
    dao.data = dao_data;
    let mut vote = CastVoteV1::try_from(vec![account(Pubkey([9; 32]), true, false, 1_500, vec![]), proposal, dao.clone()], PROGRAM).unwrap();
    vote.vote().unwrap();
    let proposal = vote.accounts.proposal;
    assert_eq!(ProposalV1::try_from_slice(&proposal.data).unwrap().status, ProposalStatus::Passed);

    let accs = vec![
        account(Pubkey([8; 32]), true, true, 10, vec![]),
        proposal,
        vault,
        account(recipient, false, true, 0, vec![]),
        dao,
    ];
    let mut exec = ExecuteProposalV1::try_from(accs, PROGRAM).unwrap();
    exec.execute_proposal().unwrap();
    assert_eq!(exec.accounts.target_recipient.lamports, 4_000);
    assert_eq!(exec.accounts.vault.lamports, 1_900);
    assert_eq!(VaultV1::try_from_slice(&exec.accounts.vault.data), Ok(VaultV1 { amount: 1_000 }));
}

#[test]
fn payout_that_would_overflow_the_recipient_is_not_made() {
    let author = Pubkey([1; 32]);
    let recipient = Pubkey([2; 32]);
    let passed = stored_proposal(author, recipient, 300, 9, ProposalStatus::Passed);
    let mut a = execute_accounts(passed.clone(), 1_000, 500, recipient);
    a[3].lamports = u64::MAX - 10;
    let mut ix = ExecuteProposalV1::try_from(a, PROGRAM).unwrap();
    assert_eq!(ix.checked_execute_proposal(), None);
    assert_eq!(ix.accounts.vault.lamports, 1_000);
    let mut ix = ExecuteProposalV1::try_from(execute_accounts(passed, 1_000, 500, recipient), PROGRAM).unwrap();
    assert_eq!(ix.checked_execute_proposal(), Some(Ok(())));
    assert_eq!(ix.accounts.target_recipient.lamports, 340);
}

#[test]
fn executed_proposal_takes_no_more_votes() {
    let author = Pubkey([1; 32]);
    let recipient = Pubkey([2; 32]);
    let accounts = vec![
        account(Pubkey([9; 32]), true, false, 600, vec![]),
        stored_proposal(author, recipient, 50, 7, ProposalStatus::Executed),
        stored_dao(1),
    ];
    let mut ix = CastVoteV1::try_from(accounts, PROGRAM).unwrap();
    let before = ix.accounts.proposal.data.clone();
    assert_eq!(ix.vote(), Err(DaoError::InvalidAccountData));
    assert_eq!(ix.accounts.proposal.data, before);
}

#[test]
fn unreadable_records_are_refused_with_the_read_error() {
    let author = Pubkey([1; 32]);
    let recipient = Pubkey([2; 32]);
    let mut dao = stored_dao(1);
    dao.data.push(0);
    let accounts = vec![
        account(Pubkey([9; 32]), true, false, 600, vec![]),
        stored_proposal(author, recipient, 50, 7, ProposalStatus::Active),
        dao,
    ];
    let mut ix = CastVoteV1::try_from(accounts, PROGRAM).unwrap();
    assert_eq!(ix.vote(), Err(DaoError::BorshIoError(BorshError::NotAllBytesRead)));
}

#[test]
fn signing_executor_need_not_be_writable() {
    let author = Pubkey([1; 32]);
    let recipient = Pubkey([2; 32]);
    let passed = stored_proposal(author, recipient, 300, 9, ProposalStatus::Passed);
    let mut a = execute_accounts(passed, 1_000, 500, recipient);
    a[0].is_writable = false;
    let checked = ExecuteProposalV1Accounts::try_from(a.clone()).unwrap();
    assert_eq!(checked.executor, a[0]);
    let mut ix = ExecuteProposalV1::try_from(a, PROGRAM).unwrap();
    assert_eq!(ix.execute_proposal(), Ok(()));
    assert_eq!(ix.accounts.executor.lamports, 10);
    let mut b = execute_accounts(stored_proposal(author, recipient, 300, 9, ProposalStatus::Passed), 1_000, 500, recipient);
    b[0].is_signer = false;
    assert_eq!(ExecuteProposalV1Accounts::try_from(b).err(), Some(DaoError::MissingRequiredSignature));
}

#[test]
fn no_account_is_requested_for_a_proposal_over_budget() {
    let author = Pubkey([1; 32]);
    let recipient = Pubkey([2; 32]);
    let data = CreateProposalV1InstructionData { target_recipient: recipient, amount: 101 };
    let ix = CreateProposalV1::try_from(create_accounts(author, recipient, 100), data, PROGRAM).unwrap();
    assert_eq!(ix.account_request_within_budget(900).err(), Some(DaoError::InsufficientFunds));
    let data = CreateProposalV1InstructionData { target_recipient: recipient, amount: 100 };
    let ix = CreateProposalV1::try_from(create_accounts(author, recipient, 100), data, PROGRAM).unwrap();
    let req = ix.account_request_within_budget(900).unwrap();
    assert_eq!(req, ix.proposal_account_request(900));
}

#[test]
fn payout_keeps_the_rent_reserve_and_a_funded_vault_records_its_amount() {
    let rent = 890u64;
    let data = InitDaoV1InstructionData { vote_threshold: 1, vested_amount: 5_000 };
    let mut init = InitDaoV1::try_from(init_accounts(), data, PROGRAM).unwrap();
    init.accounts.vault.data = vec![0u8; VaultV1::LEN];
    init.accounts.vault.lamports = rent + 5_000;
    init.init_vault().unwrap();
    let recorded = VaultV1::try_from_slice(&init.accounts.vault.data).unwrap().amount;
    assert_eq!(init.accounts.vault.lamports, rent + recorded);

    let author = Pubkey([1; 32]);
    let recipient = Pubkey([2; 32]);
    let passed = stored_proposal(author, recipient, 3_000, 9, ProposalStatus::Passed);
    let mut ix = ExecuteProposalV1::try_from(execute_accounts(passed, rent + 5_000, 5_000, recipient), PROGRAM).unwrap();
    ix.execute_proposal().unwrap();
    let left = VaultV1::try_from_slice(&ix.accounts.vault.data).unwrap().amount;
    assert!(ix.accounts.vault.lamports >= rent + left);
    assert_eq!(ix.accounts.vault.lamports, rent + 2_000);
}
