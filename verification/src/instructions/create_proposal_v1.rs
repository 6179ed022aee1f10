use vstd::prelude::*;

use crate::account::AccountInfo;
use crate::address::{check_pda, is_system_program, spec_check_pda, spec_system_program_id};
use crate::cpi::{create_account, is_create_account, CpiRequest};
use crate::error::{BorshError, DaoError};
use crate::pubkey::Pubkey;
use crate::seeds::{proposal_seeds, proposal_seeds_vec, push_bump, vault_seeds, vault_seeds_vec, with_bump};
use crate::states::proposal_v1::lemma_proposal_v1_roundtrip;
use crate::states::{ProposalStatus, ProposalV1, VaultV1};

verus! {

/// The accounts that open a proposal: the paying author, the proposal's
/// record, the treasury and the system program.
#[derive(Debug, PartialEq, Eq)]
pub struct CreateProposalV1Accounts {
    pub author: AccountInfo,
    pub proposal: AccountInfo,
    pub vault: AccountInfo,
    pub system_program: AccountInfo,
}

impl CreateProposalV1Accounts {
    /// The first check on the account list that fails, if any.
    pub open spec fn spec_check(accounts: Seq<AccountInfo>) -> Result<(), DaoError> {
        if accounts.len() != 4 {
            Err(DaoError::NotEnoughAccountKeys)
        } else if !accounts[0].is_signer {
            Err(DaoError::MissingRequiredSignature)
        } else if !accounts[0].is_writable || !accounts[1].is_writable {
            Err(DaoError::InvalidAccountData)
        } else if accounts[3].key@ != spec_system_program_id() {
            Err(DaoError::IncorrectProgramId)
        } else {
            Ok(())
        }
    }

    /// Takes the four accounts in order: the author must sign, the author
    /// and the proposal must be writable, and the last must be the system program.
    pub fn try_from(accounts: Vec<AccountInfo>) -> (r: Result<CreateProposalV1Accounts, DaoError>)
        ensures
            Self::spec_check(accounts@) is Ok ==> (r matches Ok(a) && a.author == accounts@[0]
                && a.proposal == accounts@[1] && a.vault == accounts@[2] && a.system_program
                == accounts@[3]),
            Self::spec_check(accounts@) matches Err(e) ==> r == Err::<CreateProposalV1Accounts, DaoError>(e),
    {
        let mut accounts = accounts;
        if accounts.len() != 4 {
            return Err(DaoError::NotEnoughAccountKeys);
        }
        let system_program = accounts.pop().unwrap();
        let vault = accounts.pop().unwrap();
        let proposal = accounts.pop().unwrap();
        let author = accounts.pop().unwrap();
        if !author.is_signer {
            return Err(DaoError::MissingRequiredSignature);
        }
        if !author.is_writable {
            return Err(DaoError::InvalidAccountData);
        }
        if !proposal.is_writable {
            return Err(DaoError::InvalidAccountData);
        }
        if !is_system_program(&system_program.key) {
            return Err(DaoError::IncorrectProgramId);
        }
        Ok(CreateProposalV1Accounts { author, proposal, vault, system_program })
    }
}

/// What a proposal asks for: an amount to be paid to a recipient.
#[derive(Clone, Copy, Debug, PartialEq, Eq)]
pub struct CreateProposalV1InstructionData {
    pub target_recipient: Pubkey,
    pub amount: u64,
}

/// A checked request to open a proposal.
#[derive(Debug, PartialEq, Eq)]
pub struct CreateProposalV1 {
    pub accounts: CreateProposalV1Accounts,
    pub instruction_data: CreateProposalV1InstructionData,
    pub program_id: Pubkey,
    pub proposal_bump: u8,
}

impl CreateProposalV1 {
    /// The outcome of the checks on the accounts: the proposal's bump seed
    /// when they pass. The proposal's address is derived from its author
    /// and its recipient.
    pub open spec fn spec_try_from(
        accounts: Seq<AccountInfo>,
        instruction_data: CreateProposalV1InstructionData,
        program_id: Pubkey,
    ) -> Result<u8, DaoError> {
        match CreateProposalV1Accounts::spec_check(accounts) {
            Err(e) => Err(e),
            Ok(_) => match spec_check_pda(
                proposal_seeds(accounts[0].key@, instruction_data.target_recipient@),
                program_id@,
                accounts[1].key@,
            ) {
                Err(e) => Err(e),
                Ok(bump) => match spec_check_pda(vault_seeds(), program_id@, accounts[2].key@) {
                    Err(e) => Err(e),
                    Ok(_) => Ok(bump),
                },
            },
        }
    }

    /// Checks the accounts, then that the proposal is the program's address
    /// for its author and recipient, and that the treasury is the program's treasury.
    pub fn try_from(
        accounts: Vec<AccountInfo>,
        instruction_data: CreateProposalV1InstructionData,
        program_id: Pubkey,
    ) -> (r: Result<CreateProposalV1, DaoError>)
        ensures
            Self::spec_try_from(accounts@, instruction_data, program_id) matches Ok(bump) ==> (r matches Ok(ix)
                && ix.accounts.author == accounts@[0] && ix.accounts.proposal == accounts@[1]
                && ix.accounts.vault == accounts@[2] && ix.accounts.system_program == accounts@[3]
                && ix.instruction_data == instruction_data && ix.program_id == program_id
                && ix.proposal_bump == bump),
            Self::spec_try_from(accounts@, instruction_data, program_id) matches Err(e) ==> r == Err::<CreateProposalV1, DaoError>(e),
    {
        let accounts = CreateProposalV1Accounts::try_from(accounts)?;
        let seeds = proposal_seeds_vec(&accounts.author.key, &instruction_data.target_recipient);
        let proposal_bump = check_pda(&seeds, &program_id, &accounts.proposal.key)?;
        check_pda(&vault_seeds_vec(), &program_id, &accounts.vault.key)?;
        Ok(CreateProposalV1 { accounts, instruction_data, program_id, proposal_bump })
    }

    /// The outcome of the budget check: the treasury's record must read,
    /// and the amount asked for must not exceed the amount it holds.
    pub open spec fn spec_validate_budget(self) -> Result<(), DaoError> {
        match VaultV1::spec_try_from_slice(self.accounts.vault.data@) {
            Err(e) => Err(DaoError::BorshIoError(e)),
            Ok(vault) => if self.instruction_data.amount > vault.amount {
                Err(DaoError::InsufficientFunds)
            } else {
                Ok(())
            },
        }
    }

    /// Refuses a proposal that asks for more than the treasury holds.
    pub fn validate_budget(&self) -> (r: Result<(), DaoError>)
        ensures
            r == self.spec_validate_budget(),
    {
        let vault_data = match VaultV1::try_from_slice(self.accounts.vault.data.as_slice()) {
            Ok(v) => v,
            Err(e) => {
                return Err(DaoError::BorshIoError(e));
            },
        };
        if self.instruction_data.amount > vault_data.amount {
            return Err(DaoError::InsufficientFunds);
        }
        Ok(())
    }

    /// The system program call that creates the proposal's record: the
    /// author pays `rent_minimum` for its `ProposalV1::LEN` bytes, owned by
    /// this program, signed for with the proposal's seeds and bump.
    pub fn proposal_account_request(&self, rent_minimum: u64) -> (req: CpiRequest)
        ensures
            is_create_account(
                req.instruction,
                self.accounts.author.key,
                self.accounts.proposal.key,
                rent_minimum,
                ProposalV1::LEN as u64,
                self.program_id,
            ),
            req.signer_seeds.deep_view() == with_bump(
                proposal_seeds(self.accounts.author.key@, self.instruction_data.target_recipient@),
                self.proposal_bump,
            ),
    {
        let instruction = create_account(
            &self.accounts.author.key,
            &self.accounts.proposal.key,
            rent_minimum,
            ProposalV1::LEN as u64,
            &self.program_id,
        );
        let mut signer_seeds = proposal_seeds_vec(&self.accounts.author.key, &self.instruction_data.target_recipient);
        push_bump(&mut signer_seeds, self.proposal_bump);
        CpiRequest { instruction, signer_seeds }
    }

    /// The budget check and then, where it passes, the system program call
    /// that creates the proposal's record: no account is created for a
    /// proposal over budget.
    pub fn account_request_within_budget(&self, rent_minimum: u64) -> (r: Result<CpiRequest, DaoError>)
        ensures
            self.spec_validate_budget() matches Err(e) ==> r matches Err(x) && x == e,
            self.spec_validate_budget() is Ok ==> (r matches Ok(req) && is_create_account(
                req.instruction,
                self.accounts.author.key,
                self.accounts.proposal.key,
                rent_minimum,
                ProposalV1::LEN as u64,
                self.program_id,
            ) && req.signer_seeds.deep_view() == with_bump(
                proposal_seeds(self.accounts.author.key@, self.instruction_data.target_recipient@),
                self.proposal_bump,
            )),
    {
        self.validate_budget()?;
        Ok(self.proposal_account_request(rent_minimum))
    }

    /// The proposal as it is opened: no votes yet, active.
    pub open spec fn spec_proposal(self) -> ProposalV1 {
        ProposalV1 {
            author: self.accounts.author.key,
            target_recipient: self.instruction_data.target_recipient,
            amount: self.instruction_data.amount,
            current_vote: 0,
            status: ProposalStatus::Active,
        }
    }

    /// Writes the new proposal into its account, once the account has been
    /// created. An account too small for it is refused and nothing changes.
    pub fn init_proposal(&mut self) -> (r: Result<(), DaoError>)
        ensures
            old(self).accounts.proposal.data@.len() < ProposalV1::LEN ==> r == Err::<(), DaoError>(
                DaoError::BorshIoError(BorshError::WriteZero),
            ) && *final(self) == *old(self),
            old(self).accounts.proposal.data@.len() >= ProposalV1::LEN ==> r is Ok
                && old(self).accounts.proposal.data_updated(
                final(self).accounts.proposal,
                old(self).spec_proposal().spec_to_bytes() + old(self).accounts.proposal.data@.skip(
                    ProposalV1::LEN as int,
                ),
            ) && final(self).accounts.author == old(self).accounts.author
                && final(self).accounts.vault == old(self).accounts.vault
                && final(self).accounts.system_program == old(self).accounts.system_program
                && final(self).instruction_data == old(self).instruction_data
                && final(self).program_id == old(self).program_id
                && final(self).proposal_bump == old(self).proposal_bump,
            r is Ok ==> ProposalV1::spec_try_from_slice(final(self).accounts.proposal.data@.subrange(0, 81))
                == Ok::<ProposalV1, BorshError>(
                ProposalV1 {
                    author: old(self).accounts.author.key,
                    target_recipient: old(self).instruction_data.target_recipient,
                    amount: old(self).instruction_data.amount,
                    current_vote: 0,
                    status: ProposalStatus::Active,
                },
            ),
    {
        proof {
            lemma_proposal_v1_roundtrip(self.spec_proposal());
        }
        let proposal_data = ProposalV1 {
            author: self.accounts.author.key,
            target_recipient: self.instruction_data.target_recipient,
            amount: self.instruction_data.amount,
            current_vote: 0,
            status: ProposalStatus::Active,
        };
        match proposal_data.serialize_into(&mut self.accounts.proposal.data) {
            Ok(()) => {
                assert(self.accounts.proposal.data@.subrange(0, 81) =~= proposal_data.spec_to_bytes());
                Ok(())
            },
            Err(e) => Err(DaoError::BorshIoError(e)),
        }
    }
}

/// A proposal that passes the budget check is opened active, with no
/// votes, for no more than the treasury holds.
pub proof fn lemma_opened_proposal_within_budget(ix: CreateProposalV1)
    requires
        ix.spec_validate_budget() is Ok,
    ensures
        VaultV1::spec_try_from_slice(ix.accounts.vault.data@) matches Ok(vault)
            && ix.spec_proposal().amount <= vault.amount,
        ix.spec_proposal().status == ProposalStatus::Active,
        ix.spec_proposal().current_vote == 0,
{
}

} // verus!
