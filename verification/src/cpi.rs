use vstd::prelude::*;

use solana_program::pubkey::Pubkey as SolPubkey;

use crate::address::spec_system_program_id;
use crate::codec::u64_bytes;
use crate::pubkey::Pubkey;

verus! {

/// An account that an instruction names, and how it may use it.
#[derive(Clone, Copy, Debug, PartialEq, Eq)]
pub struct AccountMeta {
    pub pubkey: Pubkey,
    pub is_signer: bool,
    pub is_writable: bool,
}

/// An instruction for another program: the program, the accounts it names, its data.
#[derive(Debug, PartialEq, Eq)]
pub struct Instruction {
    pub program_id: Pubkey,
    pub accounts: Vec<AccountMeta>,
    pub data: Vec<u8>,
}

/// A call of another program that this program signs for with the seeds of
/// one of its program-derived addresses.
#[derive(Debug, PartialEq, Eq)]
pub struct CpiRequest {
    pub instruction: Instruction,
    pub signer_seeds: Vec<Vec<u8>>,
}

/// The data of the system program's `CreateAccount` instruction: the
/// variant index 0 as four little-endian bytes, the lamports and the space
/// as little-endian `u64`, then the owner's 32 bytes.
pub open spec fn spec_create_account_data(lamports: u64, space: u64, owner: Seq<u8>) -> Seq<u8> {
    seq![0u8, 0u8, 0u8, 0u8] + u64_bytes(lamports) + u64_bytes(space) + owner
}

/// `ix` is the system program's instruction to create the account `to`,
/// funded by `from` with `lamports`, with `space` bytes of data, owned by `owner`.
pub open spec fn is_create_account(
    ix: Instruction,
    from: Pubkey,
    to: Pubkey,
    lamports: u64,
    space: u64,
    owner: Pubkey,
) -> bool {
    &&& ix.program_id@ == spec_system_program_id()
    &&& ix.accounts@ == seq![
        AccountMeta { pubkey: from, is_signer: true, is_writable: true },
        AccountMeta { pubkey: to, is_signer: true, is_writable: true },
    ]
    &&& ix.data@ == spec_create_account_data(lamports, space, owner@)
}

/// Calls `solana_system_interface::instruction::create_account` and takes the
/// instruction it builds apart into plain values. Trusted: as its source
/// shows, the instruction is for the system program, names `from` and `to`,
/// both as signing and writable, and its data is the bincode form of
/// `SystemInstruction::CreateAccount { lamports, space, owner }`.
#[verifier::external_body]
pub(crate) fn create_account(from: &Pubkey, to: &Pubkey, lamports: u64, space: u64, owner: &Pubkey) -> (ix: Instruction)
    ensures
        is_create_account(ix, *from, *to, lamports, space, *owner),
{
    let sol = |k: &Pubkey| SolPubkey::new_from_array(k.0);
    let ix = solana_system_interface::instruction::create_account(&sol(from), &sol(to), lamports, space, &sol(owner));
    let accounts = ix.accounts.iter().map(|m| AccountMeta { pubkey: Pubkey(m.pubkey.to_bytes()), is_signer: m.is_signer, is_writable: m.is_writable }).collect();
    Instruction { program_id: Pubkey(ix.program_id.to_bytes()), accounts, data: ix.data }
}

} // verus!
