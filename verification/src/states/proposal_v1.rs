use vstd::prelude::*;

use crate::codec::{le_value, lemma_u64_bytes_roundtrip, lemma_u64_little_endian, read_u64, u64_at, u64_bytes, write_prefix, write_u64};
use crate::error::BorshError;
use crate::pubkey::{lemma_pubkey_from_seq, pubkey_from_seq, Pubkey};

verus! {

/// Where a proposal is in its life: it collects votes while `Active`,
/// can be paid out once `Passed`, and is done when `Executed`.
#[derive(Clone, Copy, Debug, PartialEq, Eq, Structural)]
pub enum ProposalStatus {
    Active,
    Passed,
    Executed,
}

impl ProposalStatus {
    /// The byte that stands for the status in the stored record.
    pub open spec fn spec_tag(self) -> u8 {
        match self {
            ProposalStatus::Active => 0,
            ProposalStatus::Passed => 1,
            ProposalStatus::Executed => 2,
        }
    }

    /// The status a tag byte stands for, if any.
    pub open spec fn spec_from_tag(tag: u8) -> Option<ProposalStatus> {
        if tag == 0 {
            Some(ProposalStatus::Active)
        } else if tag == 1 {
            Some(ProposalStatus::Passed)
        } else if tag == 2 {
            Some(ProposalStatus::Executed)
        } else {
            None
        }
    }

    /// The byte that stands for the status.
    pub fn tag(&self) -> (t: u8)
        ensures
            t == self.spec_tag(),
    {
        match self {
            ProposalStatus::Active => 0,
            ProposalStatus::Passed => 1,
            ProposalStatus::Executed => 2,
        }
    }

    /// The status a tag byte stands for, if any.
    pub fn from_tag(tag: u8) -> (s: Option<ProposalStatus>)
        ensures
            s == Self::spec_from_tag(tag),
    {
        if tag == 0 {
            Some(ProposalStatus::Active)
        } else if tag == 1 {
            Some(ProposalStatus::Passed)
        } else if tag == 2 {
            Some(ProposalStatus::Executed)
        } else {
            None
        }
    }
}

/// A request to pay `amount` from the treasury to `target_recipient`.
#[derive(Clone, Copy, Debug, PartialEq, Eq)]
pub struct ProposalV1 {
    /// The account that made the proposal.
    pub author: Pubkey,
    /// The account to be paid when the proposal is executed.
    pub target_recipient: Pubkey,
    /// The amount requested.
    pub amount: u64,
    /// The votes collected so far.
    pub current_vote: u64,
    /// Where the proposal is in its life.
    pub status: ProposalStatus,
}

impl ProposalV1 {
    /// The size of the stored record: two addresses, two `u64`, one tag byte.
    pub const LEN: usize = 81;

    /// The first seed of a proposal's program-derived address, the bytes of `proposal_v1`.
    pub open spec fn spec_seed() -> Seq<u8> {
        seq![112u8, 114u8, 111u8, 112u8, 111u8, 115u8, 97u8, 108u8, 95u8, 118u8, 49u8]
    }

    /// The first seed of a proposal's program-derived address.
    pub fn seed() -> (s: Vec<u8>)
        ensures
            s@ == Self::spec_seed(),
    {
        let s = vec![112u8, 114u8, 111u8, 112u8, 111u8, 115u8, 97u8, 108u8, 95u8, 118u8, 49u8];
        assert(s@ =~= Self::spec_seed());
        s
    }

    /// The stored form: author, recipient, amount, votes, status tag.
    pub open spec fn spec_to_bytes(self) -> Seq<u8> {
        self.author@ + self.target_recipient@ + u64_bytes(self.amount) + u64_bytes(
            self.current_vote,
        ) + seq![self.status.spec_tag()]
    }

    /// What reading a stored record from exactly the bytes of `data` gives.
    /// The fields are read in order, so a short buffer ends the read before
    /// the status tag is looked at, and left-over bytes count only after it.
    pub open spec fn spec_try_from_slice(data: Seq<u8>) -> Result<ProposalV1, BorshError> {
        if data.len() < 81 {
            Err(BorshError::UnexpectedLength)
        } else {
            match ProposalStatus::spec_from_tag(data[80]) {
                None => Err(BorshError::UnexpectedVariantTag(data[80])),
                Some(status) => if data.len() > 81 {
                    Err(BorshError::NotAllBytesRead)
                } else {
                    Ok(
                        ProposalV1 {
                            author: pubkey_from_seq(data.subrange(0, 32)),
                            target_recipient: pubkey_from_seq(data.subrange(32, 64)),
                            amount: u64_at(data, 64),
                            current_vote: u64_at(data, 72),
                            status,
                        },
                    )
                },
            }
        }
    }

    /// Reads the record stored in `data`, which must hold it and nothing more.
    pub fn try_from_slice(data: &[u8]) -> (r: Result<ProposalV1, BorshError>)
        ensures
            r == Self::spec_try_from_slice(data@),
    {
        if data.len() < Self::LEN {
            return Err(BorshError::UnexpectedLength);
        }
        let status = match ProposalStatus::from_tag(data[80]) {
            Some(s) => s,
            None => {
                return Err(BorshError::UnexpectedVariantTag(data[80]));
            },
        };
        if data.len() > Self::LEN {
            return Err(BorshError::NotAllBytesRead);
        }
        let author = Pubkey::from_slice_at(data, 0);
        let target_recipient = Pubkey::from_slice_at(data, 32);
        let amount = read_u64(data, 64);
        let current_vote = read_u64(data, 72);
        Ok(ProposalV1 { author, target_recipient, amount, current_vote, status })
    }

    /// The stored form of the record.
    pub fn to_bytes(&self) -> (out: Vec<u8>)
        ensures
            out@ == self.spec_to_bytes(),
            out@.len() == Self::LEN,
    {
        let mut out: Vec<u8> = Vec::new();
        self.author.write_to(&mut out);
        self.target_recipient.write_to(&mut out);
        write_u64(&mut out, self.amount);
        write_u64(&mut out, self.current_vote);
        out.push(self.status.tag());
        assert(out@ =~= self.spec_to_bytes());
        proof {
            lemma_u64_bytes_roundtrip(self.amount, Seq::empty());
            lemma_u64_bytes_roundtrip(self.current_vote, Seq::empty());
        }
        out
    }

    /// Writes the record at the front of `data`; the bytes after it stay.
    /// A buffer shorter than the record is refused and left as it was.
    pub fn serialize_into(&self, data: &mut Vec<u8>) -> (r: Result<(), BorshError>)
        ensures
            old(data)@.len() < Self::LEN ==> r == Err::<(), BorshError>(BorshError::WriteZero)
                && *final(data) == *old(data),
            old(data)@.len() >= Self::LEN ==> r is Ok && final(data)@ == self.spec_to_bytes()
                + old(data)@.skip(Self::LEN as int),
    {
        if data.len() < Self::LEN {
            return Err(BorshError::WriteZero);
        }
        let bytes = self.to_bytes();
        write_prefix(data, &bytes);
        Ok(())
    }
}

/// The stored form of a record has the record's size.
pub proof fn lemma_proposal_v1_len(p: ProposalV1)
    ensures
        p.spec_to_bytes().len() == ProposalV1::LEN,
{
    lemma_u64_bytes_roundtrip(p.amount, Seq::empty());
    lemma_u64_bytes_roundtrip(p.current_vote, Seq::empty());
}

/// Reading back the stored form of a record gives the record.
pub proof fn lemma_proposal_v1_roundtrip(p: ProposalV1)
    ensures
        ProposalV1::spec_try_from_slice(p.spec_to_bytes()) == Ok::<ProposalV1, BorshError>(p),
{
    let b = p.spec_to_bytes();
    lemma_u64_bytes_roundtrip(p.amount, Seq::empty());
    lemma_u64_bytes_roundtrip(p.current_vote, Seq::empty());
    assert(b.subrange(0, 32) =~= p.author@);
    assert(b.subrange(32, 64) =~= p.target_recipient@);
    assert(b.subrange(64, 72) =~= u64_bytes(p.amount));
    assert(b.subrange(72, 80) =~= u64_bytes(p.current_vote));
    assert(b[80] == p.status.spec_tag());
    lemma_pubkey_from_seq(p.author@);
    lemma_pubkey_from_seq(p.target_recipient@);
}

/// A buffer that reads as a record is exactly that record's stored form.
pub proof fn lemma_proposal_v1_canonical(data: Seq<u8>)
    ensures
        ProposalV1::spec_try_from_slice(data) matches Ok(p) ==> p.spec_to_bytes() == data,
{
    if let Ok(p) = ProposalV1::spec_try_from_slice(data) {
        lemma_pubkey_from_seq(data.subrange(0, 32));
        lemma_pubkey_from_seq(data.subrange(32, 64));
        lemma_u64_bytes_roundtrip(0, data.subrange(64, 72));
        lemma_u64_bytes_roundtrip(0, data.subrange(72, 80));
        assert(p.spec_to_bytes() =~= data);
    }
}

/// The status bytes are 0 for active, 1 for passed and 2 for executed, and
/// no other byte names a status.
pub proof fn lemma_status_tags(tag: u8)
    ensures
        ProposalStatus::Active.spec_tag() == 0,
        ProposalStatus::Passed.spec_tag() == 1,
        ProposalStatus::Executed.spec_tag() == 2,
        ProposalStatus::spec_from_tag(0) == Some(ProposalStatus::Active),
        ProposalStatus::spec_from_tag(1) == Some(ProposalStatus::Passed),
        ProposalStatus::spec_from_tag(2) == Some(ProposalStatus::Executed),
        tag > 2 ==> ProposalStatus::spec_from_tag(tag) is None,
{
}

/// The stored form of a proposal is the author's 32 bytes in order, the
/// recipient's 32 bytes in order, the amount and the votes as little-endian
/// `u64`, then the status byte; and 81 bytes with a status byte read as the
/// proposal with exactly those fields.
pub proof fn lemma_proposal_v1_layout(p: ProposalV1, data: Seq<u8>)
    ensures
        p.spec_to_bytes().len() == 81,
        p.spec_to_bytes().subrange(0, 32) == p.author@,
        p.spec_to_bytes().subrange(32, 64) == p.target_recipient@,
        le_value(p.spec_to_bytes().subrange(64, 72)) == p.amount as int,
        le_value(p.spec_to_bytes().subrange(72, 80)) == p.current_vote as int,
        p.spec_to_bytes()[80] == p.status.spec_tag(),
        data.len() == 81 && data[80] <= 2 ==> (ProposalV1::spec_try_from_slice(data) matches Ok(r)
            && r.author@ == data.subrange(0, 32) && r.target_recipient@ == data.subrange(32, 64)
            && r.amount as int == le_value(data.subrange(64, 72)) && r.current_vote as int
            == le_value(data.subrange(72, 80)) && r.status.spec_tag() == data[80]),
{
    let b = p.spec_to_bytes();
    lemma_u64_little_endian(p.amount, data, 64);
    lemma_u64_little_endian(p.current_vote, data, 72);
    assert(b.subrange(0, 32) =~= p.author@);
    assert(b.subrange(32, 64) =~= p.target_recipient@);
    assert(b.subrange(64, 72) =~= u64_bytes(p.amount));
    assert(b.subrange(72, 80) =~= u64_bytes(p.current_vote));
    if data.len() == 81 {
        lemma_pubkey_from_seq(data.subrange(0, 32));
        lemma_pubkey_from_seq(data.subrange(32, 64));
    }
}

} // verus!
