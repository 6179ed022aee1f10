use vstd::prelude::*;

use crate::codec::lemma_seeds_deep_view;
use crate::pubkey::Pubkey;
use crate::states::{DaoV1, ProposalV1, VaultV1};

verus! {

/// The seeds of the organisation's record.
pub open spec fn dao_seeds() -> Seq<Seq<u8>> {
    seq![DaoV1::spec_seed()]
}

/// The seeds of the treasury.
pub open spec fn vault_seeds() -> Seq<Seq<u8>> {
    seq![VaultV1::spec_seed()]
}

/// The seeds of the proposal of `author` that pays `recipient`: one proposal
/// per author and recipient.
pub open spec fn proposal_seeds(author: Seq<u8>, recipient: Seq<u8>) -> Seq<Seq<u8>> {
    seq![ProposalV1::spec_seed(), author, recipient]
}

/// `seeds` followed by the one-byte seed `bump`.
pub open spec fn with_bump(seeds: Seq<Seq<u8>>, bump: u8) -> Seq<Seq<u8>> {
    seeds.push(seq![bump])
}

/// The seeds of the organisation's record, as a value.
pub fn dao_seeds_vec() -> (s: Vec<Vec<u8>>)
    ensures
        s.deep_view() == dao_seeds(),
{
    let mut s: Vec<Vec<u8>> = Vec::new();
    s.push(DaoV1::seed());
    proof {
        lemma_seeds_deep_view(s);
    }
    assert(s.deep_view() =~= dao_seeds());
    s
}

/// The seeds of the treasury, as a value.
pub fn vault_seeds_vec() -> (s: Vec<Vec<u8>>)
    ensures
        s.deep_view() == vault_seeds(),
{
    let mut s: Vec<Vec<u8>> = Vec::new();
    s.push(VaultV1::seed());
    proof {
        lemma_seeds_deep_view(s);
    }
    assert(s.deep_view() =~= vault_seeds());
    s
}

/// The bytes of an address, as a vector.
pub fn key_bytes(key: &Pubkey) -> (v: Vec<u8>)
    ensures
        v@ == key@,
{
    let mut v: Vec<u8> = Vec::new();
    key.write_to(&mut v);
    assert(v@ =~= key@);
    v
}

/// The seeds of the proposal of `author` that pays `recipient`, as a value.
pub fn proposal_seeds_vec(author: &Pubkey, recipient: &Pubkey) -> (s: Vec<Vec<u8>>)
    ensures
        s.deep_view() == proposal_seeds(author@, recipient@),
{
    let mut s: Vec<Vec<u8>> = Vec::new();
    s.push(ProposalV1::seed());
    s.push(key_bytes(author));
    s.push(key_bytes(recipient));
    proof {
        lemma_seeds_deep_view(s);
    }
    assert(s.deep_view() =~= proposal_seeds(author@, recipient@));
    s
}

/// `seeds` with the one-byte seed `bump` pushed at the end.
pub fn push_bump(seeds: &mut Vec<Vec<u8>>, bump: u8)
    ensures
        final(seeds).deep_view() == with_bump(old(seeds).deep_view(), bump),
{
    let ghost base = *seeds;
    let bump_seed = vec![bump];
    assert(bump_seed@ =~= seq![bump]);
    seeds.push(bump_seed);
    proof {
        lemma_seeds_deep_view(base);
        lemma_seeds_deep_view(*seeds);
    }
    assert(seeds.deep_view() =~= with_bump(old(seeds).deep_view(), bump));
}

/// The seeds of the program's addresses: the organisation's record has the
/// one seed `dao_v1`, the treasury the one seed `vault_v1`, and a proposal
/// the seed `proposal_v1` followed by its author's and its recipient's bytes,
/// in that order; the bump seed comes last.
pub proof fn lemma_seed_layout(author: Seq<u8>, recipient: Seq<u8>, seeds: Seq<Seq<u8>>, bump: u8)
    ensures
        dao_seeds() == seq![seq![100u8, 97u8, 111u8, 95u8, 118u8, 49u8]],
        vault_seeds() == seq![seq![118u8, 97u8, 117u8, 108u8, 116u8, 95u8, 118u8, 49u8]],
        proposal_seeds(author, recipient).len() == 3,
        proposal_seeds(author, recipient)[0] == seq![112u8, 114u8, 111u8, 112u8, 111u8, 115u8, 97u8, 108u8, 95u8, 118u8, 49u8],
        proposal_seeds(author, recipient)[1] == author,
        proposal_seeds(author, recipient)[2] == recipient,
        with_bump(seeds, bump) == seeds + seq![seq![bump]],
{
    assert(DaoV1::spec_seed() =~= seq![100u8, 97u8, 111u8, 95u8, 118u8, 49u8]);
    assert(VaultV1::spec_seed() =~= seq![118u8, 97u8, 117u8, 108u8, 116u8, 95u8, 118u8, 49u8]);
    assert(ProposalV1::spec_seed() =~= seq![112u8, 114u8, 111u8, 112u8, 111u8, 115u8, 97u8, 108u8, 95u8, 118u8, 49u8]);
    assert(dao_seeds() =~= seq![seq![100u8, 97u8, 111u8, 95u8, 118u8, 49u8]]);
    assert(vault_seeds() =~= seq![seq![118u8, 97u8, 117u8, 108u8, 116u8, 95u8, 118u8, 49u8]]);
    assert(with_bump(seeds, bump) =~= seeds + seq![seq![bump]]);
}

} // verus!
