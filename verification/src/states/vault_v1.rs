use vstd::prelude::*;

use crate::codec::{fixed_len_error, le_value, lemma_u64_bytes_roundtrip, lemma_u64_little_endian, read_u64, u64_at, u64_bytes, write_prefix, write_u64};
use crate::error::BorshError;

verus! {

/// The treasury's record of the amount it was funded with and still holds
/// for proposals.
#[derive(Clone, Copy, Debug, PartialEq, Eq)]
pub struct VaultV1 {
    /// The amount held for proposals.
    pub amount: u64,
}

impl VaultV1 {
    /// The size of the stored record: one `u64`.
    pub const LEN: usize = 8;

    /// The seed of the treasury's program-derived address, the bytes of `vault_v1`.
    pub open spec fn spec_seed() -> Seq<u8> {
        seq![118u8, 97u8, 117u8, 108u8, 116u8, 95u8, 118u8, 49u8]
    }

    /// The seed of the treasury's program-derived address.
    pub fn seed() -> (s: Vec<u8>)
        ensures
            s@ == Self::spec_seed(),
    {
        let s = vec![118u8, 97u8, 117u8, 108u8, 116u8, 95u8, 118u8, 49u8];
        assert(s@ =~= Self::spec_seed());
        s
    }

    /// The stored form: the amount, little-endian.
    pub open spec fn spec_to_bytes(self) -> Seq<u8> {
        u64_bytes(self.amount)
    }

    /// What reading a stored record from exactly the bytes of `data` gives.
    pub open spec fn spec_try_from_slice(data: Seq<u8>) -> Result<VaultV1, BorshError> {
        match fixed_len_error(data.len(), 8) {
            Some(e) => Err(e),
            None => Ok(VaultV1 { amount: u64_at(data, 0) }),
        }
    }

    /// Reads the record stored in `data`, which must hold it and nothing more.
    pub fn try_from_slice(data: &[u8]) -> (r: Result<VaultV1, BorshError>)
        ensures
            r == Self::spec_try_from_slice(data@),
    {
        if data.len() < Self::LEN {
            return Err(BorshError::UnexpectedLength);
        }
        if data.len() > Self::LEN {
            return Err(BorshError::NotAllBytesRead);
        }
        Ok(VaultV1 { amount: read_u64(data, 0) })
    }

    /// The stored form of the record.
    pub fn to_bytes(&self) -> (out: Vec<u8>)
        ensures
            out@ == self.spec_to_bytes(),
            out@.len() == Self::LEN,
    {
        let mut out: Vec<u8> = Vec::new();
        write_u64(&mut out, self.amount);
        assert(out@ =~= self.spec_to_bytes());
        proof {
            lemma_u64_bytes_roundtrip(self.amount, Seq::empty());
        }
        out
    }

    /// Writes the record at the front of `data`; the bytes after it stay.
    /// A buffer shorter than the record is refused and left as it was.
    pub fn serialize_into(&self, data: &mut Vec<u8>) -> (r: Result<(), BorshError>)
        ensures
            old(data)@.len() < Self::LEN ==> r == Err::<(), BorshError>(BorshError::WriteZero)
                && *final(data) == *old(data),
            old(data)@.len() >= Self::LEN ==> r is Ok && final(data)@ == self.spec_to_bytes()
                + old(data)@.skip(Self::LEN as int),
    {
        if data.len() < Self::LEN {
            return Err(BorshError::WriteZero);
        }
        let bytes = self.to_bytes();
        write_prefix(data, &bytes);
        Ok(())
    }
}

/// The stored form of a record has the record's size.
pub proof fn lemma_vault_v1_len(v: VaultV1)
    ensures
        v.spec_to_bytes().len() == VaultV1::LEN,
{
    lemma_u64_bytes_roundtrip(v.amount, Seq::empty());
}

/// Reading back the stored form of a record gives the record.
pub proof fn lemma_vault_v1_roundtrip(v: VaultV1)
    ensures
        VaultV1::spec_try_from_slice(v.spec_to_bytes()) == Ok::<VaultV1, BorshError>(v),
{
    lemma_u64_bytes_roundtrip(v.amount, Seq::empty());
    assert(v.spec_to_bytes().subrange(0, 8) =~= v.spec_to_bytes());
}

/// A buffer that reads as a record is exactly that record's stored form.
pub proof fn lemma_vault_v1_canonical(data: Seq<u8>)
    ensures
        VaultV1::spec_try_from_slice(data) matches Ok(v) ==> v.spec_to_bytes() == data,
{
    if let Ok(v) = VaultV1::spec_try_from_slice(data) {
        assert(data.subrange(0, 8) =~= data);
        lemma_u64_bytes_roundtrip(0, data);
    }
}

/// The stored form of the treasury's record is its amount as a
/// little-endian `u64`, and 8 bytes read as the record whose amount is the
/// little-endian number they stand for.
pub proof fn lemma_vault_v1_layout(v: VaultV1, data: Seq<u8>)
    ensures
        v.spec_to_bytes().len() == 8,
        le_value(v.spec_to_bytes()) == v.amount as int,
        data.len() == 8 ==> (VaultV1::spec_try_from_slice(data) matches Ok(r) && r.amount as int
            == le_value(data)),
{
    lemma_u64_little_endian(v.amount, data, 0);
    if data.len() == 8 {
        assert(data.subrange(0, 8) =~= data);
    }
}

} // verus!
