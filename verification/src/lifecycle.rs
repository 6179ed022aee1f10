//! Properties of a proposal's life that span the instructions.

use vstd::prelude::*;

use crate::account::AccountInfo;
use crate::address::{program_address, spec_check_pda, spec_system_program_id};
use crate::error::DaoError;
use crate::pubkey::Pubkey;
use crate::seeds::{dao_seeds, proposal_seeds, vault_seeds};
use crate::instructions::cast_vote_v1::{saturating_add, spec_cast_vote};
use crate::instructions::{
    CastVoteV1, CastVoteV1Accounts, CreateProposalV1, CreateProposalV1Accounts, ExecuteProposalV1,
    ExecuteProposalV1Accounts, InitDaoV1, InitDaoV1Accounts,
};
use crate::states::dao_v1::lemma_dao_v1_roundtrip;
use crate::states::proposal_v1::lemma_proposal_v1_roundtrip;
use crate::states::vault_v1::lemma_vault_v1_roundtrip;
use crate::states::{DaoV1, ProposalStatus, ProposalV1, VaultV1};

verus! {

/// How far a proposal has come: active, then passed, then executed.
pub open spec fn status_rank(s: ProposalStatus) -> int {
    match s {
        ProposalStatus::Active => 0,
        ProposalStatus::Passed => 1,
        ProposalStatus::Executed => 2,
    }
}

/// A vote adds the voter's power to the votes, saturating at `u64::MAX`,
/// so votes never go down; the author, the recipient and the amount stay.
pub proof fn lemma_vote_adds_power(p: ProposalV1, dao: DaoV1, power: u64)
    ensures
        spec_cast_vote(p, dao, power).current_vote == saturating_add(p.current_vote, power),
        spec_cast_vote(p, dao, power).current_vote >= p.current_vote,
        p.current_vote + power <= u64::MAX ==> spec_cast_vote(p, dao, power).current_vote
            == p.current_vote + power,
        spec_cast_vote(p, dao, power).author == p.author,
        spec_cast_vote(p, dao, power).target_recipient == p.target_recipient,
        spec_cast_vote(p, dao, power).amount == p.amount,
{
}

/// An active proposal passes on a vote exactly when its votes reach the
/// organisation's threshold, and otherwise stays active.
pub proof fn lemma_vote_passes_at_threshold(p: ProposalV1, dao: DaoV1, power: u64)
    requires
        p.status == ProposalStatus::Active,
    ensures
        (spec_cast_vote(p, dao, power).status == ProposalStatus::Passed) == (spec_cast_vote(
            p,
            dao,
            power,
        ).current_vote >= dao.vote_threshold),
        spec_cast_vote(p, dao, power).status != ProposalStatus::Executed,
{
}

/// A vote is taken only on an active proposal, and what it leaves behind
/// is never less far along than what it found.
pub proof fn lemma_vote_only_on_active(ix: CastVoteV1)
    ensures
        ix.spec_vote() matches Ok(after) ==> (ProposalV1::spec_try_from_slice(
            ix.accounts.proposal.data@,
        ) matches Ok(before) && before.status == ProposalStatus::Active && status_rank(
            after.status,
        ) >= status_rank(before.status)),
{
}

/// A payout is made only for a passed proposal; it leaves the proposal
/// executed and otherwise as it was, and takes exactly the amount paid off
/// the treasury's record, which must have covered it.
pub proof fn lemma_execute_only_passed(ix: ExecuteProposalV1)
    ensures
        ix.spec_execute() matches Ok((after, vault_after)) ==> (ProposalV1::spec_try_from_slice(
            ix.accounts.proposal.data@,
        ) matches Ok(before) && VaultV1::spec_try_from_slice(ix.accounts.vault.data@) matches Ok(
            vault_before,
        ) && before.status == ProposalStatus::Passed && after == ProposalV1 {
            status: ProposalStatus::Executed,
            ..before
        } && vault_before.amount >= before.amount && vault_after.amount + before.amount
            == vault_before.amount && ix.accounts.vault.lamports >= before.amount),
{
}

/// An executed proposal is final: it can be neither voted on nor paid out again.
pub proof fn lemma_executed_is_final(vote: CastVoteV1, execute: ExecuteProposalV1)
    requires
        ProposalV1::spec_try_from_slice(vote.accounts.proposal.data@) matches Ok(p) && p.status
            == ProposalStatus::Executed,
        ProposalV1::spec_try_from_slice(execute.accounts.proposal.data@) matches Ok(p) && p.status
            == ProposalStatus::Executed,
    ensures
        vote.spec_vote() is Err,
        execute.spec_execute() is Err,
{
}

/// A passed proposal takes no more votes, and an active one cannot be paid out.
pub proof fn lemma_vote_and_payout_exclusive(vote: CastVoteV1, execute: ExecuteProposalV1)
    ensures
        ProposalV1::spec_try_from_slice(vote.accounts.proposal.data@) matches Ok(p) && p.status
            == ProposalStatus::Passed ==> vote.spec_vote() is Err,
        ProposalV1::spec_try_from_slice(execute.accounts.proposal.data@) matches Ok(p) && p.status
            == ProposalStatus::Active ==> execute.spec_execute() is Err,
{
}

/// What the opening of a proposal writes is read back, by the next vote or
/// payout, as an active proposal with no votes for the amount and recipient
/// asked for.
pub proof fn lemma_opened_proposal_reads_back(ix: CreateProposalV1)
    ensures
        ProposalV1::spec_try_from_slice(ix.spec_proposal().spec_to_bytes()) == Ok::<
            ProposalV1,
            crate::error::BorshError,
        >(ix.spec_proposal()),
        ix.spec_proposal().status == ProposalStatus::Active,
        ix.spec_proposal().current_vote == 0,
        ix.spec_proposal().amount == ix.instruction_data.amount,
        ix.spec_proposal().target_recipient == ix.instruction_data.target_recipient,
        ix.spec_proposal().author == ix.accounts.author.key,
{
    lemma_proposal_v1_roundtrip(ix.spec_proposal());
}

/// What a vote writes is read back by the next instruction as the proposal
/// after the vote.
pub proof fn lemma_voted_proposal_reads_back(ix: CastVoteV1)
    ensures
        ix.spec_vote() matches Ok(after) ==> ProposalV1::spec_try_from_slice(after.spec_to_bytes())
            == Ok::<ProposalV1, crate::error::BorshError>(after),
{
    if let Ok(after) = ix.spec_vote() {
        lemma_proposal_v1_roundtrip(after);
    }
}

/// A vote refused for the proposal's status is refused with `InvalidAccountData`.
pub proof fn lemma_closed_vote_error(ix: CastVoteV1)
    requires
        ProposalV1::spec_try_from_slice(ix.accounts.proposal.data@) matches Ok(p) && p.status
            != ProposalStatus::Active,
        DaoV1::spec_try_from_slice(ix.accounts.dao.data@) is Ok,
    ensures
        ix.spec_vote() == Err::<ProposalV1, DaoError>(DaoError::InvalidAccountData),
{
}

/// A vote is counted only against the program's own organisation record,
/// so no other account can supply the threshold, and only on the proposal
/// account that the program derives from the author and recipient the
/// proposal records.
pub proof fn lemma_vote_reads_only_program_accounts(accounts: Seq<AccountInfo>, program_id: Pubkey, ix: CastVoteV1)
    ensures
        CastVoteV1::spec_try_from(accounts, program_id) is Ok ==> (program_address(
            dao_seeds(),
            program_id@,
        ) matches Some((address, _)) && address == accounts[2].key@),
        ix.spec_vote() is Ok ==> (ProposalV1::spec_try_from_slice(ix.accounts.proposal.data@) matches Ok(p)
            && program_address(proposal_seeds(p.author@, p.target_recipient@), ix.program_id@) matches Some(
            (address, _),
        ) && address == ix.accounts.proposal.key@),
{
}

/// A payout comes only from the program's own treasury, only for the
/// proposal account derived from the proposal's author and recipient, and
/// only to the recipient the proposal records.
pub proof fn lemma_payout_only_from_program_accounts(accounts: Seq<AccountInfo>, program_id: Pubkey, ix: ExecuteProposalV1)
    ensures
        ExecuteProposalV1::spec_try_from(accounts, program_id) is Ok ==> (program_address(
            vault_seeds(),
            program_id@,
        ) matches Some((address, _)) && address == accounts[2].key@),
        ix.spec_execute() is Ok ==> (ProposalV1::spec_try_from_slice(ix.accounts.proposal.data@) matches Ok(p)
            && program_address(proposal_seeds(p.author@, p.target_recipient@), ix.program_id@) matches Some(
            (address, _),
        ) && address == ix.accounts.proposal.key@ && p.target_recipient == ix.accounts.target_recipient.key),
{
}


/// A payout never eats into the treasury's reserve: where the treasury's
/// balance covers `rent_minimum` plus its recorded amount before a payout,
/// it still does after it.
pub proof fn lemma_payout_keeps_reserve(ix: ExecuteProposalV1, rent_minimum: u64)
    requires
        VaultV1::spec_try_from_slice(ix.accounts.vault.data@) matches Ok(v) && ix.accounts.vault.lamports
            >= rent_minimum + v.amount,
    ensures
        ix.spec_execute() matches Ok((p, v_after)) ==> ix.accounts.vault.lamports - p.amount
            >= rent_minimum + v_after.amount,
{
}

/// A proposal pays out at most once: once a payout has stored the
/// proposal, any later payout from that stored proposal is refused.
pub proof fn lemma_pays_out_at_most_once(first: ExecuteProposalV1, second: ExecuteProposalV1)
    requires
        first.spec_execute() matches Ok((p, _)) && second.accounts.proposal.data@ == p.spec_to_bytes(),
    ensures
        second.spec_execute() is Err,
{
    if let Ok((p, _)) = first.spec_execute() {
        lemma_proposal_v1_roundtrip(p);
    }
}

/// The treasury is funded with exactly its recorded amount above rent: the
/// account that `vault_account_request` asks the system program to create
/// with `rent_minimum` plus the vested amount holds, once `init_vault` has
/// written its record, `rent_minimum` plus the amount the record reads back as.
pub proof fn lemma_vault_funded_with_recorded_amount(ix: InitDaoV1, rent_minimum: u64)
    requires
        ix.accounts.vault.lamports == rent_minimum + ix.instruction_data.vested_amount,
    ensures
        VaultV1::spec_try_from_slice(ix.spec_vault().spec_to_bytes()) matches Ok(v)
            && ix.accounts.vault.lamports == rent_minimum + v.amount,
{
    lemma_vault_v1_roundtrip(ix.spec_vault());
}

/// The whole life of a proposal ends in a payout: with the records that
/// setting up the organisation writes, a proposal for no more than the
/// vested amount, opened at the program's address for its author and
/// recipient, is passed by a vote of at least the threshold, and is then
/// paid out from a treasury funded as `vault_account_request` asks.
pub proof fn lemma_proposal_life_ends_in_payout(
    init: InitDaoV1,
    create: CreateProposalV1,
    vote: CastVoteV1,
    execute: ExecuteProposalV1,
    rent_minimum: u64,
)
    requires
        create.instruction_data.amount <= init.instruction_data.vested_amount,
        spec_check_pda(
            proposal_seeds(create.accounts.author.key@, create.instruction_data.target_recipient@),
            create.program_id@,
            create.accounts.proposal.key@,
        ) is Ok,
        vote.program_id == create.program_id,
        vote.accounts.proposal.key == create.accounts.proposal.key,
        vote.accounts.proposal.data@ == create.spec_proposal().spec_to_bytes(),
        vote.accounts.dao.data@ == init.spec_dao().spec_to_bytes(),
        vote.accounts.voter.lamports >= init.instruction_data.vote_threshold,
        execute.program_id == create.program_id,
        execute.accounts.proposal.key == create.accounts.proposal.key,
        vote.spec_vote() matches Ok(after) && execute.accounts.proposal.data@ == after.spec_to_bytes(),
        execute.accounts.vault.data@ == init.spec_vault().spec_to_bytes(),
        execute.accounts.vault.lamports == rent_minimum + init.instruction_data.vested_amount,
        execute.accounts.target_recipient.key == create.instruction_data.target_recipient,
    ensures
        vote.spec_vote() matches Ok(after) && after.status == ProposalStatus::Passed,
        execute.spec_execute() is Ok,
{
    lemma_proposal_v1_roundtrip(create.spec_proposal());
    lemma_dao_v1_roundtrip(init.spec_dao());
    lemma_vault_v1_roundtrip(init.spec_vault());
    if let Ok(after) = vote.spec_vote() {
        lemma_proposal_v1_roundtrip(after);
    }
}

/// A vote is made exactly on an active proposal whose records read and
/// whose account is the program's address for its author and recipient.
/// It adds the voter's whole balance to the votes, stopping at `u64::MAX`,
/// and leaves the proposal passed exactly when the new count reaches the
/// organisation's threshold, active otherwise; the author, the recipient
/// and the amount stay.
pub proof fn lemma_vote_outcome(ix: CastVoteV1)
    ensures
        ix.spec_vote() matches Ok(after) ==> (ProposalV1::spec_try_from_slice(
            ix.accounts.proposal.data@,
        ) matches Ok(before) && DaoV1::spec_try_from_slice(ix.accounts.dao.data@) matches Ok(dao)
            && before.status == ProposalStatus::Active && after.current_vote as int == (if before.current_vote
            + ix.accounts.voter.lamports <= u64::MAX {
            before.current_vote + ix.accounts.voter.lamports
        } else {
            u64::MAX as int
        }) && (after.status == ProposalStatus::Passed) == (after.current_vote >= dao.vote_threshold)
            && (after.status == ProposalStatus::Passed || after.status == ProposalStatus::Active)
            && after.author == before.author && after.target_recipient == before.target_recipient
            && after.amount == before.amount),
        ProposalV1::spec_try_from_slice(ix.accounts.proposal.data@) matches Ok(before)
            && DaoV1::spec_try_from_slice(ix.accounts.dao.data@) is Ok && before.status
            == ProposalStatus::Active && spec_check_pda(
            proposal_seeds(before.author@, before.target_recipient@),
            ix.program_id@,
            ix.accounts.proposal.key@,
        ) is Ok ==> ix.spec_vote() is Ok,
{
}

/// Setting up writes the organisation's record with the admin account's
/// address and the threshold asked for, and the treasury's record with the
/// vested amount: that is what the written bytes read back as, and the
/// record's first 32 bytes are the admin's address.
pub proof fn lemma_setup_records(ix: InitDaoV1)
    ensures
        DaoV1::spec_try_from_slice(ix.spec_dao().spec_to_bytes()) == Ok::<DaoV1, crate::error::BorshError>(
            DaoV1 { admin: ix.accounts.admin.key, vote_threshold: ix.instruction_data.vote_threshold },
        ),
        ix.spec_dao().spec_to_bytes().subrange(0, 32) == ix.accounts.admin.key@,
        VaultV1::spec_try_from_slice(ix.spec_vault().spec_to_bytes()) == Ok::<VaultV1, crate::error::BorshError>(
            VaultV1 { amount: ix.instruction_data.vested_amount },
        ),
{
    lemma_dao_v1_roundtrip(ix.spec_dao());
    lemma_vault_v1_roundtrip(ix.spec_vault());
    crate::states::dao_v1::lemma_dao_v1_layout(ix.spec_dao(), Seq::empty());
}

/// `key` is the program-derived address of `seeds` under `program_id`.
pub open spec fn is_program_address(seeds: Seq<Seq<u8>>, program_id: Pubkey, key: Pubkey) -> bool {
    program_address(seeds, program_id@) matches Some((address, _)) && address == key@
}

/// What each instruction asks of its account list: exactly the number of
/// accounts it takes, a signature from the first, the accounts it writes
/// writable, and, where it creates accounts, the system program last.
pub proof fn lemma_account_requirements(a: Seq<AccountInfo>)
    ensures
        InitDaoV1Accounts::spec_check(a) is Ok <==> (a.len() == 4 && a[0].is_signer && a[0].is_writable
            && a[1].is_writable && a[2].is_writable && a[3].key@ == spec_system_program_id()),
        CreateProposalV1Accounts::spec_check(a) is Ok <==> (a.len() == 4 && a[0].is_signer
            && a[0].is_writable && a[1].is_writable && a[3].key@ == spec_system_program_id()),
        CastVoteV1Accounts::spec_check(a) is Ok <==> (a.len() == 3 && a[0].is_signer && a[1].is_writable),
        ExecuteProposalV1Accounts::spec_check(a) is Ok <==> (a.len() == 5 && a[0].is_signer
            && a[1].is_writable && a[2].is_writable && a[3].is_writable),
        a.len() != 4 ==> InitDaoV1Accounts::spec_check(a) == Err::<(), DaoError>(DaoError::NotEnoughAccountKeys)
            && CreateProposalV1Accounts::spec_check(a) == Err::<(), DaoError>(DaoError::NotEnoughAccountKeys),
        a.len() != 3 ==> CastVoteV1Accounts::spec_check(a) == Err::<(), DaoError>(DaoError::NotEnoughAccountKeys),
        a.len() != 5 ==> ExecuteProposalV1Accounts::spec_check(a) == Err::<(), DaoError>(
            DaoError::NotEnoughAccountKeys,
        ),
{
}

/// Setting up accepts only the program's own addresses for the
/// organisation's record and the treasury, and opening a proposal only the
/// program's address for its author and recipient, and its treasury.
pub proof fn lemma_setup_and_opening_use_program_accounts(
    a: Seq<AccountInfo>,
    program_id: Pubkey,
    data: crate::instructions::CreateProposalV1InstructionData,
)
    ensures
        InitDaoV1::spec_try_from(a, program_id) is Ok ==> is_program_address(dao_seeds(), program_id, a[1].key),
        InitDaoV1::spec_try_from(a, program_id) is Ok ==> is_program_address(vault_seeds(), program_id, a[2].key),
        CreateProposalV1::spec_try_from(a, data, program_id) is Ok ==> is_program_address(
            proposal_seeds(a[0].key@, data.target_recipient@),
            program_id,
            a[1].key,
        ),
        CreateProposalV1::spec_try_from(a, data, program_id) is Ok ==> is_program_address(vault_seeds(), program_id, a[2].key),
{
}

/// A proposal passes the budget check exactly when the treasury's record
/// reads and holds at least the amount asked for; asking for more is
/// refused with `InsufficientFunds`.
pub proof fn lemma_budget(ix: CreateProposalV1)
    ensures
        ix.spec_validate_budget() is Ok <==> (VaultV1::spec_try_from_slice(ix.accounts.vault.data@) matches Ok(v)
            && ix.instruction_data.amount <= v.amount),
        VaultV1::spec_try_from_slice(ix.accounts.vault.data@) matches Ok(v) && ix.instruction_data.amount > v.amount
            ==> ix.spec_validate_budget() == Err::<(), DaoError>(DaoError::InsufficientFunds),
{
}

} // verus!
