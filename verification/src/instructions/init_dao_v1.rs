use vstd::prelude::*;

use crate::account::AccountInfo;
use crate::address::{check_pda, is_system_program, spec_check_pda, spec_system_program_id};
use crate::cpi::{create_account, is_create_account, CpiRequest};
use crate::error::DaoError;
use crate::pubkey::Pubkey;
use crate::seeds::{dao_seeds, dao_seeds_vec, push_bump, vault_seeds, vault_seeds_vec, with_bump};
use crate::states::dao_v1::lemma_dao_v1_roundtrip;
use crate::states::vault_v1::lemma_vault_v1_roundtrip;
use crate::states::{DaoV1, VaultV1};

verus! {

/// The accounts that set up the organisation: the paying admin, the
/// organisation's record, the treasury and the system program.
#[derive(Debug, PartialEq, Eq)]
pub struct InitDaoV1Accounts {
    pub admin: AccountInfo,
    pub dao: AccountInfo,
    pub vault: AccountInfo,
    pub system_program: AccountInfo,
}

impl InitDaoV1Accounts {
    /// The first check on the account list that fails, if any.
    pub open spec fn spec_check(accounts: Seq<AccountInfo>) -> Result<(), DaoError> {
        if accounts.len() != 4 {
            Err(DaoError::NotEnoughAccountKeys)
        } else if !accounts[0].is_signer {
            Err(DaoError::MissingRequiredSignature)
        } else if !accounts[0].is_writable || !accounts[1].is_writable || !accounts[2].is_writable {
            Err(DaoError::InvalidAccountData)
        } else if accounts[3].key@ != spec_system_program_id() {
            Err(DaoError::IncorrectProgramId)
        } else {
            Ok(())
        }
    }

    /// Takes the four accounts in order: the admin must sign, the admin, the
    /// record and the treasury must be writable, and the last must be the
    /// system program.
    pub fn try_from(accounts: Vec<AccountInfo>) -> (r: Result<InitDaoV1Accounts, DaoError>)
        ensures
            Self::spec_check(accounts@) is Ok ==> (r matches Ok(a) && a.admin == accounts@[0]
                && a.dao == accounts@[1] && a.vault == accounts@[2] && a.system_program
                == accounts@[3]),
            Self::spec_check(accounts@) matches Err(e) ==> r == Err::<InitDaoV1Accounts, DaoError>(e),
    {
        let mut accounts = accounts;
        if accounts.len() != 4 {
            return Err(DaoError::NotEnoughAccountKeys);
        }
        let system_program = accounts.pop().unwrap();
        let vault = accounts.pop().unwrap();
        let dao = accounts.pop().unwrap();
        let admin = accounts.pop().unwrap();
        if !admin.is_signer {
            return Err(DaoError::MissingRequiredSignature);
        }
        if !admin.is_writable {
            return Err(DaoError::InvalidAccountData);
        }
        if !dao.is_writable {
            return Err(DaoError::InvalidAccountData);
        }
        if !vault.is_writable {
            return Err(DaoError::InvalidAccountData);
        }
        if !is_system_program(&system_program.key) {
            return Err(DaoError::IncorrectProgramId);
        }
        Ok(InitDaoV1Accounts { admin, dao, vault, system_program })
    }
}

/// The settings the organisation starts with.
#[derive(Clone, Copy, Debug, PartialEq, Eq)]
pub struct InitDaoV1InstructionData {
    /// The number of votes a proposal needs to pass.
    pub vote_threshold: u64,
    /// The amount the treasury is funded with for proposals.
    pub vested_amount: u64,
}

/// A checked request to set up the organisation and its treasury.
#[derive(Debug, PartialEq, Eq)]
pub struct InitDaoV1 {
    pub accounts: InitDaoV1Accounts,
    pub instruction_data: InitDaoV1InstructionData,
    pub program_id: Pubkey,
    pub dao_bump: u8,
    pub vault_bump: u8,
}

impl InitDaoV1 {
    /// The outcome of the checks on the accounts: the bump seeds of the
    /// record and of the treasury when they pass.
    pub open spec fn spec_try_from(accounts: Seq<AccountInfo>, program_id: Pubkey) -> Result<(u8, u8), DaoError> {
        match InitDaoV1Accounts::spec_check(accounts) {
            Err(e) => Err(e),
            Ok(_) => match spec_check_pda(dao_seeds(), program_id@, accounts[1].key@) {
                Err(e) => Err(e),
                Ok(dao_bump) => match spec_check_pda(vault_seeds(), program_id@, accounts[2].key@) {
                    Err(e) => Err(e),
                    Ok(vault_bump) => Ok((dao_bump, vault_bump)),
                },
            },
        }
    }

    /// Checks the accounts, then that the record and the treasury are the
    /// program's addresses for their seeds.
    pub fn try_from(
        accounts: Vec<AccountInfo>,
        instruction_data: InitDaoV1InstructionData,
        program_id: Pubkey,
    ) -> (r: Result<InitDaoV1, DaoError>)
        ensures
            Self::spec_try_from(accounts@, program_id) matches Ok((dao_bump, vault_bump)) ==> (r matches Ok(ix)
                && ix.accounts.admin == accounts@[0] && ix.accounts.dao == accounts@[1]
                && ix.accounts.vault == accounts@[2] && ix.accounts.system_program == accounts@[3]
                && ix.instruction_data == instruction_data && ix.program_id == program_id
                && ix.dao_bump == dao_bump && ix.vault_bump == vault_bump),
            Self::spec_try_from(accounts@, program_id) matches Err(e) ==> r == Err::<InitDaoV1, DaoError>(e),
    {
        let accounts = InitDaoV1Accounts::try_from(accounts)?;
        let dao_bump = check_pda(&dao_seeds_vec(), &program_id, &accounts.dao.key)?;
        let vault_bump = check_pda(&vault_seeds_vec(), &program_id, &accounts.vault.key)?;
        Ok(InitDaoV1 { accounts, instruction_data, program_id, dao_bump, vault_bump })
    }

    /// The system program call that creates the organisation's record: the
    /// admin pays `rent_minimum` for its `DaoV1::LEN` bytes, owned by this
    /// program, signed for with the record's seeds and bump.
    pub fn dao_account_request(&self, rent_minimum: u64) -> (req: CpiRequest)
        ensures
            is_create_account(
                req.instruction,
                self.accounts.admin.key,
                self.accounts.dao.key,
                rent_minimum,
                DaoV1::LEN as u64,
                self.program_id,
            ),
            req.signer_seeds.deep_view() == with_bump(dao_seeds(), self.dao_bump),
    {
        let instruction = create_account(
            &self.accounts.admin.key,
            &self.accounts.dao.key,
            rent_minimum,
            DaoV1::LEN as u64,
            &self.program_id,
        );
        let mut signer_seeds = dao_seeds_vec();
        push_bump(&mut signer_seeds, self.dao_bump);
        CpiRequest { instruction, signer_seeds }
    }

    /// The system program call that creates the treasury: the admin pays
    /// `rent_minimum` for its `VaultV1::LEN` bytes plus the vested amount.
    pub fn vault_account_request(&self, rent_minimum: u64) -> (req: CpiRequest)
        requires
            rent_minimum + self.instruction_data.vested_amount <= u64::MAX,
        ensures
            is_create_account(
                req.instruction,
                self.accounts.admin.key,
                self.accounts.vault.key,
                (rent_minimum + self.instruction_data.vested_amount) as u64,
                VaultV1::LEN as u64,
                self.program_id,
            ),
            req.signer_seeds.deep_view() == with_bump(vault_seeds(), self.vault_bump),
    {
        let lamports = rent_minimum + self.instruction_data.vested_amount;
        let instruction = create_account(
            &self.accounts.admin.key,
            &self.accounts.vault.key,
            lamports,
            VaultV1::LEN as u64,
            &self.program_id,
        );
        let mut signer_seeds = vault_seeds_vec();
        push_bump(&mut signer_seeds, self.vault_bump);
        CpiRequest { instruction, signer_seeds }
    }

    /// The organisation's record as it is set up: the admin and the threshold.
    pub open spec fn spec_dao(self) -> DaoV1 {
        DaoV1 { admin: self.accounts.admin.key, vote_threshold: self.instruction_data.vote_threshold }
    }

    /// Writes the organisation's record into its account, once the account
    /// has been created. An account too small for it is refused and nothing changes.
    pub fn init_dao(&mut self) -> (r: Result<(), DaoError>)
        ensures
            old(self).accounts.dao.data@.len() < DaoV1::LEN ==> r == Err::<(), DaoError>(
                DaoError::BorshIoError(crate::error::BorshError::WriteZero),
            ) && *final(self) == *old(self),
            old(self).accounts.dao.data@.len() >= DaoV1::LEN ==> r is Ok
                && old(self).accounts.dao.data_updated(
                final(self).accounts.dao,
                old(self).spec_dao().spec_to_bytes() + old(self).accounts.dao.data@.skip(
                    DaoV1::LEN as int,
                ),
            ) && final(self).accounts.admin == old(self).accounts.admin
                && final(self).accounts.vault == old(self).accounts.vault
                && final(self).accounts.system_program == old(self).accounts.system_program
                && final(self).instruction_data == old(self).instruction_data
                && final(self).program_id == old(self).program_id
                && final(self).dao_bump == old(self).dao_bump
                && final(self).vault_bump == old(self).vault_bump,
            r is Ok ==> DaoV1::spec_try_from_slice(final(self).accounts.dao.data@.subrange(0, 40)) == Ok::<
                DaoV1,
                crate::error::BorshError,
            >(DaoV1 { admin: old(self).accounts.admin.key, vote_threshold: old(self).instruction_data.vote_threshold }),
    {
        proof {
            lemma_dao_v1_roundtrip(self.spec_dao());
        }
        let dao_data = DaoV1 {
            admin: self.accounts.admin.key,
            vote_threshold: self.instruction_data.vote_threshold,
        };
        match dao_data.serialize_into(&mut self.accounts.dao.data) {
            Ok(()) => {
                assert(self.accounts.dao.data@.subrange(0, 40) =~= dao_data.spec_to_bytes());
                Ok(())
            },
            Err(e) => Err(DaoError::BorshIoError(e)),
        }
    }

    /// The treasury's record as it is set up: the vested amount.
    pub open spec fn spec_vault(self) -> VaultV1 {
        VaultV1 { amount: self.instruction_data.vested_amount }
    }

    /// Writes the treasury's record into its account, once the account has
    /// been created. An account too small for it is refused and nothing changes.
    pub fn init_vault(&mut self) -> (r: Result<(), DaoError>)
        ensures
            old(self).accounts.vault.data@.len() < VaultV1::LEN ==> r == Err::<(), DaoError>(
                DaoError::BorshIoError(crate::error::BorshError::WriteZero),
            ) && *final(self) == *old(self),
            old(self).accounts.vault.data@.len() >= VaultV1::LEN ==> r is Ok
                && old(self).accounts.vault.data_updated(
                final(self).accounts.vault,
                old(self).spec_vault().spec_to_bytes() + old(self).accounts.vault.data@.skip(
                    VaultV1::LEN as int,
                ),
            ) && final(self).accounts.admin == old(self).accounts.admin
                && final(self).accounts.dao == old(self).accounts.dao
                && final(self).accounts.system_program == old(self).accounts.system_program
                && final(self).instruction_data == old(self).instruction_data
                && final(self).program_id == old(self).program_id
                && final(self).dao_bump == old(self).dao_bump
                && final(self).vault_bump == old(self).vault_bump,
            r is Ok ==> VaultV1::spec_try_from_slice(final(self).accounts.vault.data@.subrange(0, 8)) == Ok::<
                VaultV1,
                crate::error::BorshError,
            >(VaultV1 { amount: old(self).instruction_data.vested_amount }),
    {
        proof {
            lemma_vault_v1_roundtrip(self.spec_vault());
        }
        let vault_data = VaultV1 { amount: self.instruction_data.vested_amount };
        match vault_data.serialize_into(&mut self.accounts.vault.data) {
            Ok(()) => {
                assert(self.accounts.vault.data@.subrange(0, 8) =~= vault_data.spec_to_bytes());
                Ok(())
            },
            Err(e) => Err(DaoError::BorshIoError(e)),
        }
    }
}

} // verus!
