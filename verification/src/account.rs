use vstd::prelude::*;

use crate::pubkey::Pubkey;

verus! {

/// What an instruction sees of an account it is given: its address, whether
/// it signed, whether it may be written, its balance and its data.
#[derive(Clone, Debug, PartialEq, Eq)]
pub struct AccountInfo {
    pub key: Pubkey,
    pub is_signer: bool,
    pub is_writable: bool,
    pub lamports: u64,
    pub data: Vec<u8>,
}

impl AccountInfo {
    /// `after` is this account with its data replaced by `data` and nothing else changed.
    pub open spec fn data_updated(self, after: AccountInfo, data: Seq<u8>) -> bool {
        &&& after.key == self.key
        &&& after.is_signer == self.is_signer
        &&& after.is_writable == self.is_writable
        &&& after.lamports == self.lamports
        &&& after.data@ == data
    }

    /// `after` is this account with its balance replaced by `lamports`, its
    /// data by `data`, and nothing else changed.
    pub open spec fn updated(self, after: AccountInfo, lamports: int, data: Seq<u8>) -> bool {
        &&& after.key == self.key
        &&& after.is_signer == self.is_signer
        &&& after.is_writable == self.is_writable
        &&& after.lamports == lamports
        &&& after.data@ == data
    }
}

} // verus!
