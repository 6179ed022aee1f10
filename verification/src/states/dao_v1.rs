use vstd::prelude::*;

use crate::codec::{fixed_len_error, le_value, lemma_u64_bytes_roundtrip, lemma_u64_little_endian, read_u64, u64_at, u64_bytes, write_prefix, write_u64};
use crate::error::BorshError;
use crate::pubkey::{lemma_pubkey_from_seq, pubkey_from_seq, Pubkey};

verus! {

/// The configuration of the organisation, one per program.
#[derive(Clone, Copy, Debug, PartialEq, Eq)]
pub struct DaoV1 {
    /// The account that configured the organisation.
    pub admin: Pubkey,
    /// The number of votes a proposal needs to pass.
    pub vote_threshold: u64,
}

impl DaoV1 {
    /// The size of the stored record: an address and a `u64`.
    pub const LEN: usize = 40;

    /// The seed of the record's program-derived address, the bytes of `dao_v1`.
    pub open spec fn spec_seed() -> Seq<u8> {
        seq![100u8, 97u8, 111u8, 95u8, 118u8, 49u8]
    }

    /// The seed of the record's program-derived address.
    pub fn seed() -> (s: Vec<u8>)
        ensures
            s@ == Self::spec_seed(),
    {
        let s = vec![100u8, 97u8, 111u8, 95u8, 118u8, 49u8];
        assert(s@ =~= Self::spec_seed());
        s
    }

    /// The stored form: the admin's 32 bytes, then the threshold little-endian.
    pub open spec fn spec_to_bytes(self) -> Seq<u8> {
        self.admin@ + u64_bytes(self.vote_threshold)
    }

    /// What reading a stored record from exactly the bytes of `data` gives.
    pub open spec fn spec_try_from_slice(data: Seq<u8>) -> Result<DaoV1, BorshError> {
        match fixed_len_error(data.len(), 40) {
            Some(e) => Err(e),
            None => Ok(
                DaoV1 {
                    admin: pubkey_from_seq(data.subrange(0, 32)),
                    vote_threshold: u64_at(data, 32),
                },
            ),
        }
    }

    /// Reads the record stored in `data`, which must hold it and nothing more.
    pub fn try_from_slice(data: &[u8]) -> (r: Result<DaoV1, BorshError>)
        ensures
            r == Self::spec_try_from_slice(data@),
    {
        if data.len() < Self::LEN {
            return Err(BorshError::UnexpectedLength);
        }
        if data.len() > Self::LEN {
            return Err(BorshError::NotAllBytesRead);
        }
        let admin = Pubkey::from_slice_at(data, 0);
        let vote_threshold = read_u64(data, 32);
        Ok(DaoV1 { admin, vote_threshold })
    }

    /// The stored form of the record.
    pub fn to_bytes(&self) -> (out: Vec<u8>)
        ensures
            out@ == self.spec_to_bytes(),
            out@.len() == Self::LEN,
    {
        let mut out: Vec<u8> = Vec::new();
        self.admin.write_to(&mut out);
        write_u64(&mut out, self.vote_threshold);
        assert(out@ =~= self.spec_to_bytes());
        proof {
            lemma_u64_bytes_roundtrip(self.vote_threshold, Seq::empty());
        }
        out
    }

    /// Writes the record at the front of `data`; the bytes after it stay.
    /// A buffer shorter than the record is refused and left as it was.
    pub fn serialize_into(&self, data: &mut Vec<u8>) -> (r: Result<(), BorshError>)
        ensures
            old(data)@.len() < Self::LEN ==> r == Err::<(), BorshError>(BorshError::WriteZero)
                && *final(data) == *old(data),
            old(data)@.len() >= Self::LEN ==> r is Ok && final(data)@ == self.spec_to_bytes()
                + old(data)@.skip(Self::LEN as int),
    {
        if data.len() < Self::LEN {
            return Err(BorshError::WriteZero);
        }
        let bytes = self.to_bytes();
        write_prefix(data, &bytes);
        Ok(())
    }
}

/// The stored form of a record has the record's size.
pub proof fn lemma_dao_v1_len(d: DaoV1)
    ensures
        d.spec_to_bytes().len() == DaoV1::LEN,
{
    lemma_u64_bytes_roundtrip(d.vote_threshold, Seq::empty());
}

/// Reading back the stored form of a record gives the record.
pub proof fn lemma_dao_v1_roundtrip(d: DaoV1)
    ensures
        DaoV1::spec_try_from_slice(d.spec_to_bytes()) == Ok::<DaoV1, BorshError>(d),
{
    let b = d.spec_to_bytes();
    lemma_u64_bytes_roundtrip(d.vote_threshold, Seq::empty());
    assert(b.subrange(0, 32) =~= d.admin@);
    assert(b.subrange(32, 40) =~= u64_bytes(d.vote_threshold));
    lemma_pubkey_from_seq(d.admin@);
}

/// A buffer that reads as a record is exactly that record's stored form:
/// no two buffers read as the same record.
pub proof fn lemma_dao_v1_canonical(data: Seq<u8>)
    ensures
        DaoV1::spec_try_from_slice(data) matches Ok(d) ==> d.spec_to_bytes() == data,
{
    if let Ok(d) = DaoV1::spec_try_from_slice(data) {
        lemma_pubkey_from_seq(data.subrange(0, 32));
        lemma_u64_bytes_roundtrip(0, data.subrange(32, 40));
        assert(d.spec_to_bytes() =~= data);
    }
}

/// The stored form of the organisation's record is the admin's 32 bytes in
/// order, then the threshold as a little-endian `u64`; and 40 bytes read as
/// the record whose admin is their first 32 bytes in order and whose
/// threshold is the little-endian number in the last 8.
pub proof fn lemma_dao_v1_layout(d: DaoV1, data: Seq<u8>)
    ensures
        d.spec_to_bytes().len() == 40,
        d.spec_to_bytes().subrange(0, 32) == d.admin@,
        le_value(d.spec_to_bytes().subrange(32, 40)) == d.vote_threshold as int,
        data.len() == 40 ==> (DaoV1::spec_try_from_slice(data) matches Ok(r) && r.admin@ == data.subrange(
            0,
            32,
        ) && r.vote_threshold as int == le_value(data.subrange(32, 40))),
{
    let b = d.spec_to_bytes();
    lemma_u64_little_endian(d.vote_threshold, data, 32);
    assert(b.subrange(0, 32) =~= d.admin@);
    assert(b.subrange(32, 40) =~= u64_bytes(d.vote_threshold));
    if data.len() == 40 {
        lemma_pubkey_from_seq(data.subrange(0, 32));
    }
}

} // verus!
