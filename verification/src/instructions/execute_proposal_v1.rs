use vstd::prelude::*;

use crate::account::AccountInfo;
use crate::address::{check_pda, spec_check_pda};
use crate::error::DaoError;
use crate::pubkey::Pubkey;
use crate::seeds::{dao_seeds, dao_seeds_vec, proposal_seeds, proposal_seeds_vec, vault_seeds, vault_seeds_vec};
use crate::states::{ProposalStatus, ProposalV1, VaultV1};

verus! {

/// The accounts of a payout: the executor, the proposal, the treasury, the
/// recipient and the organisation's record.
#[derive(Debug, PartialEq, Eq)]
pub struct ExecuteProposalV1Accounts {
    pub executor: AccountInfo,
    pub proposal: AccountInfo,
    pub vault: AccountInfo,
    pub target_recipient: AccountInfo,
    pub dao: AccountInfo,
}

impl ExecuteProposalV1Accounts {
    /// The first check on the account list that fails, if any.
    pub open spec fn spec_check(accounts: Seq<AccountInfo>) -> Result<(), DaoError> {
        if accounts.len() != 5 {
            Err(DaoError::NotEnoughAccountKeys)
        } else if !accounts[0].is_signer {
            Err(DaoError::MissingRequiredSignature)
        } else if !accounts[1].is_writable || !accounts[2].is_writable || !accounts[3].is_writable {
            Err(DaoError::InvalidAccountData)
        } else {
            Ok(())
        }
    }

    /// Takes the five accounts in order: the executor must sign, and the
    /// proposal, the treasury and the recipient must be writable.
    pub fn try_from(accounts: Vec<AccountInfo>) -> (r: Result<ExecuteProposalV1Accounts, DaoError>)
        ensures
            Self::spec_check(accounts@) is Ok ==> (r matches Ok(a) && a.executor == accounts@[0]
                && a.proposal == accounts@[1] && a.vault == accounts@[2]
                && a.target_recipient == accounts@[3] && a.dao == accounts@[4]),
            Self::spec_check(accounts@) matches Err(e) ==> r == Err::<ExecuteProposalV1Accounts, DaoError>(e),
    {
        let mut accounts = accounts;
        if accounts.len() != 5 {
            return Err(DaoError::NotEnoughAccountKeys);
        }
        let dao = accounts.pop().unwrap();
        let target_recipient = accounts.pop().unwrap();
        let vault = accounts.pop().unwrap();
        let proposal = accounts.pop().unwrap();
        let executor = accounts.pop().unwrap();
        if !executor.is_signer {
            return Err(DaoError::MissingRequiredSignature);
        }
        if !proposal.is_writable {
            return Err(DaoError::InvalidAccountData);
        }
        if !vault.is_writable {
            return Err(DaoError::InvalidAccountData);
        }
        if !target_recipient.is_writable {
            return Err(DaoError::InvalidAccountData);
        }
        Ok(ExecuteProposalV1Accounts { executor, proposal, vault, target_recipient, dao })
    }
}

/// A checked request to pay out a passed proposal.
#[derive(Debug, PartialEq, Eq)]
pub struct ExecuteProposalV1 {
    pub accounts: ExecuteProposalV1Accounts,
    pub program_id: Pubkey,
}

impl ExecuteProposalV1 {
    /// The outcome of the checks on the accounts.
    pub open spec fn spec_try_from(accounts: Seq<AccountInfo>, program_id: Pubkey) -> Result<(), DaoError> {
        match ExecuteProposalV1Accounts::spec_check(accounts) {
            Err(e) => Err(e),
            Ok(_) => match spec_check_pda(dao_seeds(), program_id@, accounts[4].key@) {
                Err(e) => Err(e),
                Ok(_) => match spec_check_pda(vault_seeds(), program_id@, accounts[2].key@) {
                    Err(e) => Err(e),
                    Ok(_) => Ok(()),
                },
            },
        }
    }

    /// Checks the accounts, then that the organisation's record and the
    /// treasury are the program's.
    pub fn try_from(accounts: Vec<AccountInfo>, program_id: Pubkey) -> (r: Result<ExecuteProposalV1, DaoError>)
        ensures
            Self::spec_try_from(accounts@, program_id) is Ok ==> (r matches Ok(ix)
                && ix.accounts.executor == accounts@[0] && ix.accounts.proposal == accounts@[1]
                && ix.accounts.vault == accounts@[2] && ix.accounts.target_recipient == accounts@[3]
                && ix.accounts.dao == accounts@[4] && ix.program_id == program_id),
            Self::spec_try_from(accounts@, program_id) matches Err(e) ==> r == Err::<ExecuteProposalV1, DaoError>(e),
    {
        let accounts = ExecuteProposalV1Accounts::try_from(accounts)?;
        check_pda(&dao_seeds_vec(), &program_id, &accounts.dao.key)?;
        check_pda(&vault_seeds_vec(), &program_id, &accounts.vault.key)?;
        Ok(ExecuteProposalV1 { accounts, program_id })
    }

    /// The checks before any balance moves, with the records they read:
    /// both records must read, the proposal must have passed, the recipient
    /// must be the one it records, its account must be the program's
    /// address for its author and recipient, and the treasury's balance
    /// must cover the amount.
    pub open spec fn spec_execute_checks(self) -> Result<(ProposalV1, VaultV1), DaoError> {
        match ProposalV1::spec_try_from_slice(self.accounts.proposal.data@) {
            Err(e) => Err(DaoError::BorshIoError(e)),
            Ok(proposal) => match VaultV1::spec_try_from_slice(self.accounts.vault.data@) {
                Err(e) => Err(DaoError::BorshIoError(e)),
                Ok(vault) => if proposal.status != ProposalStatus::Passed {
                    Err(DaoError::InvalidAccountData)
                } else if proposal.target_recipient != self.accounts.target_recipient.key {
                    Err(DaoError::InvalidAccountData)
                } else {
                    match spec_check_pda(
                        proposal_seeds(proposal.author@, proposal.target_recipient@),
                        self.program_id@,
                        self.accounts.proposal.key@,
                    ) {
                        Err(e) => Err(e),
                        Ok(_) => if self.accounts.vault.lamports < proposal.amount {
                            Err(DaoError::InsufficientFunds)
                        } else {
                            Ok((proposal, vault))
                        },
                    }
                },
            },
        }
    }

    /// The outcome of the payout: the proposal and the treasury's record
    /// after it, or the first check that fails. The treasury's recorded
    /// amount must cover the payout too.
    pub open spec fn spec_execute(self) -> Result<(ProposalV1, VaultV1), DaoError> {
        match self.spec_execute_checks() {
            Err(e) => Err(e),
            Ok((proposal, vault)) => if vault.amount < proposal.amount {
                Err(DaoError::InsufficientFunds)
            } else {
                Ok(
                    (
                        ProposalV1 { status: ProposalStatus::Executed, ..proposal },
                        VaultV1 { amount: (vault.amount - proposal.amount) as u64 },
                    ),
                )
            },
        }
    }

    /// Whether the recipient's balance can take the payout, where the checks
    /// before it pass: the sum must fit in a `u64`.
    pub open spec fn spec_payout_fits(self) -> bool {
        self.spec_execute_checks() matches Ok((p, _)) ==> self.accounts.target_recipient.lamports
            + p.amount <= u64::MAX
    }

    /// `after` and `r` are what the payout makes of `before`: on success the
    /// amount moves from the treasury's balance to the recipient's, the
    /// proposal is stored as executed and the treasury's record as reduced,
    /// and nothing else changes; on a refusal nothing changes at all.
    pub open spec fn spec_executed(before: Self, after: Self, r: Result<(), DaoError>) -> bool {
        &&& before.spec_execute() matches Ok((p, v)) ==> {
            &&& r is Ok
            &&& before.accounts.proposal.data_updated(after.accounts.proposal, p.spec_to_bytes())
            &&& before.accounts.vault.updated(
                after.accounts.vault,
                before.accounts.vault.lamports - p.amount,
                v.spec_to_bytes(),
            )
            &&& before.accounts.target_recipient.updated(
                after.accounts.target_recipient,
                before.accounts.target_recipient.lamports + p.amount,
                before.accounts.target_recipient.data@,
            )
            &&& after.accounts.executor == before.accounts.executor
            &&& after.accounts.dao == before.accounts.dao
            &&& after.program_id == before.program_id
        }
        &&& before.spec_execute() matches Err(e) ==> r == Err::<(), DaoError>(e) && after == before
    }

    /// Reads the proposal and the treasury's record and makes the checks
    /// that come before any balance moves.
    pub fn execute_checks(&self) -> (r: Result<(ProposalV1, VaultV1), DaoError>)
        ensures
            r == self.spec_execute_checks(),
    {
        let proposal_data = match ProposalV1::try_from_slice(self.accounts.proposal.data.as_slice()) {
            Ok(p) => p,
            Err(e) => {
                return Err(DaoError::BorshIoError(e));
            },
        };
        let vault_data = match VaultV1::try_from_slice(self.accounts.vault.data.as_slice()) {
            Ok(v) => v,
            Err(e) => {
                return Err(DaoError::BorshIoError(e));
            },
        };
        if proposal_data.status != ProposalStatus::Passed {
            return Err(DaoError::InvalidAccountData);
        }
        if !proposal_data.target_recipient.key_eq(&self.accounts.target_recipient.key) {
            return Err(DaoError::InvalidAccountData);
        }
        let seeds = proposal_seeds_vec(&proposal_data.author, &proposal_data.target_recipient);
        check_pda(&seeds, &self.program_id, &self.accounts.proposal.key)?;

        let amount_to_send = proposal_data.amount;
        if self.accounts.vault.lamports < amount_to_send {
            return Err(DaoError::InsufficientFunds);
        }
        Ok((proposal_data, vault_data))
    }

    /// Pays the proposal's amount from the treasury's balance to the
    /// recipient's, marks the proposal executed and takes the amount off the
    /// treasury's record. A refused payout changes nothing.
    pub fn execute_proposal(&mut self) -> (r: Result<(), DaoError>)
        requires
            old(self).spec_payout_fits(),
        ensures
            Self::spec_executed(*old(self), *final(self), r),
            r is Ok ==> final(self).accounts.vault.lamports + final(self).accounts.target_recipient.lamports
                == old(self).accounts.vault.lamports + old(self).accounts.target_recipient.lamports,
    {
        let (mut proposal_data, vault_data) = self.execute_checks()?;
        let amount_to_send = proposal_data.amount;
        let remaining = match vault_data.amount.checked_sub(amount_to_send) {
            Some(x) => x,
            None => {
                return Err(DaoError::InsufficientFunds);
            },
        };

        self.accounts.vault.lamports = self.accounts.vault.lamports - amount_to_send;
        self.accounts.target_recipient.lamports = self.accounts.target_recipient.lamports + amount_to_send;
        proposal_data.status = ProposalStatus::Executed;
        let new_vault = VaultV1 { amount: remaining };

        let ghost proposal_before = self.accounts.proposal.data@;
        let ghost vault_before = self.accounts.vault.data@;
        if let Err(e) = proposal_data.serialize_into(&mut self.accounts.proposal.data) {
            return Err(DaoError::BorshIoError(e));
        }
        if let Err(e) = new_vault.serialize_into(&mut self.accounts.vault.data) {
            return Err(DaoError::BorshIoError(e));
        }
        assert(proposal_before.skip(ProposalV1::LEN as int) =~= Seq::<u8>::empty());
        assert(vault_before.skip(VaultV1::LEN as int) =~= Seq::<u8>::empty());
        assert(self.accounts.proposal.data@ =~= proposal_data.spec_to_bytes());
        assert(self.accounts.vault.data@ =~= new_vault.spec_to_bytes());
        Ok(())
    }
}

impl ExecuteProposalV1 {
    /// Makes the payout where the recipient's balance can take it. Where the
    /// sum would pass `u64::MAX`, it leaves everything as it was and gives
    /// `None`.
    pub fn checked_execute_proposal(&mut self) -> (r: Option<Result<(), DaoError>>)
        ensures
            !old(self).spec_payout_fits() ==> r is None && *final(self) == *old(self),
            old(self).spec_payout_fits() ==> (r matches Some(res) && Self::spec_executed(
                *old(self),
                *final(self),
                res,
            )),
    {
        if let Ok((proposal, _)) = self.execute_checks() {
            if self.accounts.target_recipient.lamports > u64::MAX - proposal.amount {
                return None;
            }
        }
        Some(self.execute_proposal())
    }
}

} // verus!
