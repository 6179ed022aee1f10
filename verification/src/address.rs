use vstd::prelude::*;

use solana_program::pubkey::Pubkey as SolPubkey;

use crate::error::DaoError;
use crate::pubkey::Pubkey;

verus! {

/// The program-derived address found for `seeds` and `program_id`, with its
/// bump seed, or `None` where no bump seed gives one.
pub uninterp spec fn program_address(seeds: Seq<Seq<u8>>, program_id: Seq<u8>) -> Option<(Seq<u8>, u8)>;

/// The bytes of the system program's address (`11111111111111111111111111111111`
/// in base 58): thirty-two zero bytes.
pub open spec fn spec_system_program_id() -> Seq<u8> {
    Seq::new(32, |i: int| 0u8)
}

/// An optional address and bump, with the address taken by its bytes.
pub open spec fn address_view(r: Option<(Pubkey, u8)>) -> Option<(Seq<u8>, u8)> {
    match r {
        Some((k, b)) => Some((k@, b)),
        None => None,
    }
}

/// Calls `Pubkey::try_find_program_address` of `solana_program` on the seeds
/// and the program id. Trusted: the result is the named `program_address` of
/// the seeds' bytes and the program id's bytes. Where to search takes pages
/// (a SHA-256 hash per bump seed, tried from 255 down, and a curve check), so
/// only the name is stated; `None` comes where no bump seed gives an address
/// off the curve, for 16 or more seeds (the bump seed makes one more), and
/// for a seed longer than 32 bytes.
#[verifier::external_body]
fn try_find_program_address(seeds: &Vec<Vec<u8>>, program_id: &Pubkey) -> (r: Option<(Pubkey, u8)>)
    ensures
        address_view(r) == program_address(seeds.deep_view(), program_id@),
{
    let seed_slices: Vec<&[u8]> = seeds.iter().map(|s| s.as_slice()).collect();
    let id = SolPubkey::new_from_array(program_id.0);
    match SolPubkey::try_find_program_address(&seed_slices, &id) {
        Some((address, bump)) => Some((Pubkey(address.to_bytes()), bump)),
        None => None,
    }
}

/// Reads `solana_system_interface::program::ID`, the system program's address.
/// Trusted: its bytes are the thirty-two zero bytes that its base-58 form
/// `11111111111111111111111111111111` stands for.
#[verifier::external_body]
pub(crate) fn system_program_id() -> (id: Pubkey)
    ensures
        id@ == spec_system_program_id(),
{
    Pubkey(solana_system_interface::program::ID.to_bytes())
}

/// The program-derived address of `seeds` under `program_id`, and its bump seed.
/// Where none exists the derivation is refused with `InvalidSeeds`.
pub fn find_program_address(seeds: &Vec<Vec<u8>>, program_id: &Pubkey) -> (r: Result<(Pubkey, u8), DaoError>)
    ensures
        program_address(seeds.deep_view(), program_id@) matches Some((k, b)) ==> r matches Ok(
            (key, bump),
        ) && key@ == k && bump == b,
        program_address(seeds.deep_view(), program_id@) is None ==> r == Err::<(Pubkey, u8), DaoError>(
            DaoError::InvalidSeeds,
        ),
{
    match try_find_program_address(seeds, program_id) {
        Some(found) => Ok(found),
        None => Err(DaoError::InvalidSeeds),
    }
}

/// The outcome of checking that `key` is the program-derived address of
/// `seeds` under `program_id`: its bump seed when it is.
pub open spec fn spec_check_pda(seeds: Seq<Seq<u8>>, program_id: Seq<u8>, key: Seq<u8>) -> Result<u8, DaoError> {
    match program_address(seeds, program_id) {
        None => Err(DaoError::InvalidSeeds),
        Some((address, bump)) => if address == key {
            Ok(bump)
        } else {
            Err(DaoError::InvalidAccountData)
        },
    }
}

/// Checks that `key` is the program-derived address of `seeds` under
/// `program_id`, and gives its bump seed; any other address is refused with
/// `InvalidAccountData`.
pub fn check_pda(seeds: &Vec<Vec<u8>>, program_id: &Pubkey, key: &Pubkey) -> (r: Result<u8, DaoError>)
    ensures
        r == spec_check_pda(seeds.deep_view(), program_id@, key@),
{
    let (address, bump) = find_program_address(seeds, program_id)?;
    if address.key_eq(key) {
        Ok(bump)
    } else {
        Err(DaoError::InvalidAccountData)
    }
}

/// Whether `key` is the system program.
pub fn is_system_program(key: &Pubkey) -> (r: bool)
    ensures
        r == (key@ == spec_system_program_id()),
{
    let id = system_program_id();
    id.key_eq(key)
}

} // verus!
