use vstd::prelude::*;

use crate::account::AccountInfo;
use crate::address::{check_pda, spec_check_pda};
use crate::error::DaoError;
use crate::pubkey::Pubkey;
use crate::seeds::{dao_seeds, dao_seeds_vec, proposal_seeds, proposal_seeds_vec};
use crate::states::{DaoV1, ProposalStatus, ProposalV1};

verus! {

/// The accounts of a vote: the voter, whose balance is its voting power,
/// the proposal voted on and the organisation's record.
#[derive(Debug, PartialEq, Eq)]
pub struct CastVoteV1Accounts {
    pub voter: AccountInfo,
    pub proposal: AccountInfo,
    pub dao: AccountInfo,
}

impl CastVoteV1Accounts {
    /// The first check on the account list that fails, if any.
    pub open spec fn spec_check(accounts: Seq<AccountInfo>) -> Result<(), DaoError> {
        if accounts.len() != 3 {
            Err(DaoError::NotEnoughAccountKeys)
        } else if !accounts[0].is_signer {
            Err(DaoError::MissingRequiredSignature)
        } else if !accounts[1].is_writable {
            Err(DaoError::InvalidAccountData)
        } else {
            Ok(())
        }
    }

    /// Takes the three accounts in order: the voter must sign and the
    /// proposal must be writable.
    pub fn try_from(accounts: Vec<AccountInfo>) -> (r: Result<CastVoteV1Accounts, DaoError>)
        ensures
            Self::spec_check(accounts@) is Ok ==> (r matches Ok(a) && a.voter == accounts@[0]
                && a.proposal == accounts@[1] && a.dao == accounts@[2]),
            Self::spec_check(accounts@) matches Err(e) ==> r == Err::<CastVoteV1Accounts, DaoError>(e),
    {
        let mut accounts = accounts;
        if accounts.len() != 3 {
            return Err(DaoError::NotEnoughAccountKeys);
        }
        let dao = accounts.pop().unwrap();
        let proposal = accounts.pop().unwrap();
        let voter = accounts.pop().unwrap();
        if !voter.is_signer {
            return Err(DaoError::MissingRequiredSignature);
        }
        if !proposal.is_writable {
            return Err(DaoError::InvalidAccountData);
        }
        Ok(CastVoteV1Accounts { voter, proposal, dao })
    }
}

/// A checked request to vote on a proposal.
#[derive(Debug, PartialEq, Eq)]
pub struct CastVoteV1 {
    pub accounts: CastVoteV1Accounts,
    pub program_id: Pubkey,
}

/// `a + b`, or `u64::MAX` where that does not fit.
pub open spec fn saturating_add(a: u64, b: u64) -> u64 {
    if a + b > u64::MAX {
        u64::MAX
    } else {
        (a + b) as u64
    }
}

/// The proposal after a vote of `power` under the organisation `dao`: the
/// votes add up (saturating at `u64::MAX`), and the proposal passes once
/// they reach the threshold.
pub open spec fn spec_cast_vote(proposal: ProposalV1, dao: DaoV1, power: u64) -> ProposalV1 {
    let votes = saturating_add(proposal.current_vote, power);
    ProposalV1 {
        current_vote: votes,
        status: if votes >= dao.vote_threshold {
            ProposalStatus::Passed
        } else {
            proposal.status
        },
        ..proposal
    }
}

impl CastVoteV1 {
    /// The outcome of the checks on the accounts.
    pub open spec fn spec_try_from(accounts: Seq<AccountInfo>, program_id: Pubkey) -> Result<(), DaoError> {
        match CastVoteV1Accounts::spec_check(accounts) {
            Err(e) => Err(e),
            Ok(_) => match spec_check_pda(dao_seeds(), program_id@, accounts[2].key@) {
                Err(e) => Err(e),
                Ok(_) => Ok(()),
            },
        }
    }

    /// Checks the accounts, then that the organisation's record is the
    /// program's, so that its threshold can be trusted.
    pub fn try_from(accounts: Vec<AccountInfo>, program_id: Pubkey) -> (r: Result<CastVoteV1, DaoError>)
        ensures
            Self::spec_try_from(accounts@, program_id) is Ok ==> (r matches Ok(ix)
                && ix.accounts.voter == accounts@[0] && ix.accounts.proposal == accounts@[1]
                && ix.accounts.dao == accounts@[2] && ix.program_id == program_id),
            Self::spec_try_from(accounts@, program_id) matches Err(e) ==> r == Err::<CastVoteV1, DaoError>(e),
    {
        let accounts = CastVoteV1Accounts::try_from(accounts)?;
        check_pda(&dao_seeds_vec(), &program_id, &accounts.dao.key)?;
        Ok(CastVoteV1 { accounts, program_id })
    }

    /// The outcome of the vote: the proposal after it, or the first check
    /// that fails. The proposal and the organisation's records must read,
    /// the proposal must be active, and its account must be the program's
    /// address for the author and recipient it records.
    pub open spec fn spec_vote(self) -> Result<ProposalV1, DaoError> {
        match ProposalV1::spec_try_from_slice(self.accounts.proposal.data@) {
            Err(e) => Err(DaoError::BorshIoError(e)),
            Ok(proposal) => match DaoV1::spec_try_from_slice(self.accounts.dao.data@) {
                Err(e) => Err(DaoError::BorshIoError(e)),
                Ok(dao) => if proposal.status != ProposalStatus::Active {
                    Err(DaoError::InvalidAccountData)
                } else {
                    match spec_check_pda(
                        proposal_seeds(proposal.author@, proposal.target_recipient@),
                        self.program_id@,
                        self.accounts.proposal.key@,
                    ) {
                        Err(e) => Err(e),
                        Ok(_) => Ok(spec_cast_vote(proposal, dao, self.accounts.voter.lamports)),
                    }
                },
            },
        }
    }

    /// Adds the voter's balance to the proposal's votes, one vote per
    /// lamport, and marks the proposal passed once the votes reach the
    /// organisation's threshold. Only the proposal's data changes; a
    /// refused vote changes nothing.
    pub fn vote(&mut self) -> (r: Result<(), DaoError>)
        ensures
            old(self).spec_vote() matches Ok(p) ==> (r is Ok
                && old(self).accounts.proposal.data_updated(final(self).accounts.proposal, p.spec_to_bytes())
                && final(self).accounts.voter == old(self).accounts.voter
                && final(self).accounts.dao == old(self).accounts.dao
                && final(self).program_id == old(self).program_id),
            old(self).spec_vote() matches Err(e) ==> (r == Err::<(), DaoError>(e) && *final(self) == *old(self)),
    {
        let mut proposal_data = match ProposalV1::try_from_slice(self.accounts.proposal.data.as_slice()) {
            Ok(p) => p,
            Err(e) => {
                return Err(DaoError::BorshIoError(e));
            },
        };
        let dao_data = match DaoV1::try_from_slice(self.accounts.dao.data.as_slice()) {
            Ok(d) => d,
            Err(e) => {
                return Err(DaoError::BorshIoError(e));
            },
        };
        if proposal_data.status != ProposalStatus::Active {
            return Err(DaoError::InvalidAccountData);
        }
        let seeds = proposal_seeds_vec(&proposal_data.author, &proposal_data.target_recipient);
        check_pda(&seeds, &self.program_id, &self.accounts.proposal.key)?;

        let voting_power = self.accounts.voter.lamports;
        proposal_data.current_vote = proposal_data.current_vote.saturating_add(voting_power);
        if proposal_data.current_vote >= dao_data.vote_threshold {
            proposal_data.status = ProposalStatus::Passed;
        }
        let ghost before = self.accounts.proposal.data@;
        match proposal_data.serialize_into(&mut self.accounts.proposal.data) {
            Ok(()) => {
                assert(before.skip(ProposalV1::LEN as int) =~= Seq::<u8>::empty());
                assert(self.accounts.proposal.data@ =~= proposal_data.spec_to_bytes());
                Ok(())
            },
            Err(e) => Err(DaoError::BorshIoError(e)),
        }
    }
}

} // verus!
