//! The instructions of the program, their byte layout and their checks.

pub mod cast_vote_v1;
pub mod create_proposal_v1;
pub mod execute_proposal_v1;
pub mod init_dao_v1;

pub use cast_vote_v1::{CastVoteV1, CastVoteV1Accounts};
pub use create_proposal_v1::{CreateProposalV1, CreateProposalV1Accounts, CreateProposalV1InstructionData};
pub use execute_proposal_v1::{ExecuteProposalV1, ExecuteProposalV1Accounts};
pub use init_dao_v1::{InitDaoV1, InitDaoV1Accounts, InitDaoV1InstructionData};

use vstd::prelude::*;

use crate::codec::{fixed_len_error, le_value, lemma_u64_bytes_roundtrip, lemma_u64_little_endian, read_u64, u64_at, u64_bytes, write_u64};
use crate::error::BorshError;
use crate::pubkey::{lemma_pubkey_from_seq, pubkey_from_seq, Pubkey};

verus! {

/// An instruction to the program: the first byte names it, the settings or
/// the request follow.
#[derive(Clone, Copy, Debug, PartialEq, Eq)]
pub enum DaoInstruction {
    /// Set up the organisation and fund its treasury (byte 0).
    InitDaoV1(InitDaoV1InstructionData),
    /// Open a proposal (byte 1).
    CreateProposalV1(CreateProposalV1InstructionData),
    /// Vote on a proposal (byte 2).
    CastVoteV1,
    /// Pay out a passed proposal (byte 3).
    ExecuteProposalV1,
}

impl DaoInstruction {
    /// The bytes of the instruction: its tag, then its fields in order.
    pub open spec fn spec_to_bytes(self) -> Seq<u8> {
        match self {
            DaoInstruction::InitDaoV1(d) => seq![0u8] + u64_bytes(d.vote_threshold) + u64_bytes(
                d.vested_amount,
            ),
            DaoInstruction::CreateProposalV1(d) => seq![1u8] + d.target_recipient@ + u64_bytes(
                d.amount,
            ),
            DaoInstruction::CastVoteV1 => seq![2u8],
            DaoInstruction::ExecuteProposalV1 => seq![3u8],
        }
    }

    /// What reading an instruction from exactly the bytes of `data` gives:
    /// the tag is read first, then the fields, then the buffer must be used up.
    pub open spec fn spec_try_from_slice(data: Seq<u8>) -> Result<DaoInstruction, BorshError> {
        if data.len() == 0 {
            Err(BorshError::UnexpectedLength)
        } else if data[0] == 0 {
            match fixed_len_error(data.len(), 17) {
                Some(e) => Err(e),
                None => Ok(
                    DaoInstruction::InitDaoV1(
                        InitDaoV1InstructionData {
                            vote_threshold: u64_at(data, 1),
                            vested_amount: u64_at(data, 9),
                        },
                    ),
                ),
            }
        } else if data[0] == 1 {
            match fixed_len_error(data.len(), 41) {
                Some(e) => Err(e),
                None => Ok(
                    DaoInstruction::CreateProposalV1(
                        CreateProposalV1InstructionData {
                            target_recipient: pubkey_from_seq(data.subrange(1, 33)),
                            amount: u64_at(data, 33),
                        },
                    ),
                ),
            }
        } else if data[0] == 2 {
            match fixed_len_error(data.len(), 1) {
                Some(e) => Err(e),
                None => Ok(DaoInstruction::CastVoteV1),
            }
        } else if data[0] == 3 {
            match fixed_len_error(data.len(), 1) {
                Some(e) => Err(e),
                None => Ok(DaoInstruction::ExecuteProposalV1),
            }
        } else {
            Err(BorshError::UnexpectedVariantTag(data[0]))
        }
    }

    /// Reads the instruction in `data`, which must hold it and nothing more.
    pub fn try_from_slice(data: &[u8]) -> (r: Result<DaoInstruction, BorshError>)
        ensures
            r == Self::spec_try_from_slice(data@),
    {
        if data.len() == 0 {
            return Err(BorshError::UnexpectedLength);
        }
        let tag = data[0];
        let n: usize = if tag == 0 {
            17
        } else if tag == 1 {
            41
        } else if tag == 2 || tag == 3 {
            1
        } else {
            return Err(BorshError::UnexpectedVariantTag(tag));
        };
        if data.len() < n {
            return Err(BorshError::UnexpectedLength);
        }
        if data.len() > n {
            return Err(BorshError::NotAllBytesRead);
        }
        if tag == 0 {
            let vote_threshold = read_u64(data, 1);
            let vested_amount = read_u64(data, 9);
            Ok(DaoInstruction::InitDaoV1(InitDaoV1InstructionData { vote_threshold, vested_amount }))
        } else if tag == 1 {
            let target_recipient = Pubkey::from_slice_at(data, 1);
            let amount = read_u64(data, 33);
            Ok(DaoInstruction::CreateProposalV1(CreateProposalV1InstructionData { target_recipient, amount }))
        } else if tag == 2 {
            Ok(DaoInstruction::CastVoteV1)
        } else {
            Ok(DaoInstruction::ExecuteProposalV1)
        }
    }

    /// The bytes of the instruction.
    pub fn to_bytes(&self) -> (out: Vec<u8>)
        ensures
            out@ == self.spec_to_bytes(),
    {
        let mut out: Vec<u8> = Vec::new();
        match self {
            DaoInstruction::InitDaoV1(d) => {
                out.push(0u8);
                write_u64(&mut out, d.vote_threshold);
                write_u64(&mut out, d.vested_amount);
            },
            DaoInstruction::CreateProposalV1(d) => {
                out.push(1u8);
                d.target_recipient.write_to(&mut out);
                write_u64(&mut out, d.amount);
            },
            DaoInstruction::CastVoteV1 => {
                out.push(2u8);
            },
            DaoInstruction::ExecuteProposalV1 => {
                out.push(3u8);
            },
        }
        assert(out@ =~= self.spec_to_bytes());
        out
    }
}

/// Reading back the bytes of an instruction gives the instruction.
pub proof fn lemma_instruction_roundtrip(ix: DaoInstruction)
    ensures
        DaoInstruction::spec_try_from_slice(ix.spec_to_bytes()) == Ok::<DaoInstruction, BorshError>(ix),
{
    let b = ix.spec_to_bytes();
    match ix {
        DaoInstruction::InitDaoV1(d) => {
            lemma_u64_bytes_roundtrip(d.vote_threshold, Seq::empty());
            lemma_u64_bytes_roundtrip(d.vested_amount, Seq::empty());
            assert(b.subrange(1, 9) =~= u64_bytes(d.vote_threshold));
            assert(b.subrange(9, 17) =~= u64_bytes(d.vested_amount));
        },
        DaoInstruction::CreateProposalV1(d) => {
            lemma_u64_bytes_roundtrip(d.amount, Seq::empty());
            assert(b.subrange(1, 33) =~= d.target_recipient@);
            assert(b.subrange(33, 41) =~= u64_bytes(d.amount));
            lemma_pubkey_from_seq(d.target_recipient@);
        },
        _ => {},
    }
}

/// Bytes that read as an instruction are exactly that instruction's bytes.
pub proof fn lemma_instruction_canonical(data: Seq<u8>)
    ensures
        DaoInstruction::spec_try_from_slice(data) matches Ok(ix) ==> ix.spec_to_bytes() == data,
{
    if let Ok(ix) = DaoInstruction::spec_try_from_slice(data) {
        match ix {
            DaoInstruction::InitDaoV1(d) => {
                lemma_u64_bytes_roundtrip(0, data.subrange(1, 9));
                lemma_u64_bytes_roundtrip(0, data.subrange(9, 17));
            },
            DaoInstruction::CreateProposalV1(d) => {
                lemma_pubkey_from_seq(data.subrange(1, 33));
                lemma_u64_bytes_roundtrip(0, data.subrange(33, 41));
            },
            _ => {},
        }
        assert(ix.spec_to_bytes() =~= data);
    }
}

/// The bytes of each instruction are its tag, 0 to 3, then its fields in
/// order: the two settings as little-endian `u64`, or the recipient's 32
/// bytes in order and the amount as a little-endian `u64`.
pub proof fn lemma_instruction_layout(ix: DaoInstruction)
    ensures
        ix matches DaoInstruction::InitDaoV1(d) ==> ix.spec_to_bytes().len() == 17
            && ix.spec_to_bytes()[0] == 0 && le_value(ix.spec_to_bytes().subrange(1, 9))
            == d.vote_threshold as int && le_value(ix.spec_to_bytes().subrange(9, 17))
            == d.vested_amount as int,
        ix matches DaoInstruction::CreateProposalV1(d) ==> ix.spec_to_bytes().len() == 41
            && ix.spec_to_bytes()[0] == 1 && ix.spec_to_bytes().subrange(1, 33) == d.target_recipient@
            && le_value(ix.spec_to_bytes().subrange(33, 41)) == d.amount as int,
        ix is CastVoteV1 ==> ix.spec_to_bytes() == seq![2u8],
        ix is ExecuteProposalV1 ==> ix.spec_to_bytes() == seq![3u8],
{
    let b = ix.spec_to_bytes();
    match ix {
        DaoInstruction::InitDaoV1(d) => {
            lemma_u64_little_endian(d.vote_threshold, b, 1);
            lemma_u64_little_endian(d.vested_amount, b, 9);
            assert(b.subrange(1, 9) =~= u64_bytes(d.vote_threshold));
            assert(b.subrange(9, 17) =~= u64_bytes(d.vested_amount));
        },
        DaoInstruction::CreateProposalV1(d) => {
            lemma_u64_little_endian(d.amount, b, 33);
            assert(b.subrange(1, 33) =~= d.target_recipient@);
            assert(b.subrange(33, 41) =~= u64_bytes(d.amount));
        },
        _ => {},
    }
}

/// Reading fixes the layout on its own: 17 bytes tagged 0 read as the
/// settings that the two little-endian numbers after the tag stand for, and
/// 41 bytes tagged 1 read as the request whose recipient is the 32 bytes
/// after the tag, in order, and whose amount is the little-endian number in
/// the last 8.
pub proof fn lemma_instruction_reads_fields(data: Seq<u8>)
    ensures
        data.len() == 17 && data[0] == 0 ==> (DaoInstruction::spec_try_from_slice(data) matches Ok(
            DaoInstruction::InitDaoV1(d),
        ) && d.vote_threshold as int == le_value(data.subrange(1, 9)) && d.vested_amount as int
            == le_value(data.subrange(9, 17))),
        data.len() == 41 && data[0] == 1 ==> (DaoInstruction::spec_try_from_slice(data) matches Ok(
            DaoInstruction::CreateProposalV1(d),
        ) && d.target_recipient@ == data.subrange(1, 33) && d.amount as int == le_value(
            data.subrange(33, 41),
        )),
        data.len() == 1 && data[0] == 2 ==> DaoInstruction::spec_try_from_slice(data) == Ok::<
            DaoInstruction,
            BorshError,
        >(DaoInstruction::CastVoteV1),
        data.len() == 1 && data[0] == 3 ==> DaoInstruction::spec_try_from_slice(data) == Ok::<
            DaoInstruction,
            BorshError,
        >(DaoInstruction::ExecuteProposalV1),
{
    lemma_u64_little_endian(0, data, 1);
    lemma_u64_little_endian(0, data, 9);
    lemma_u64_little_endian(0, data, 33);
    if data.len() == 41 {
        lemma_pubkey_from_seq(data.subrange(1, 33));
    }
}

} // verus!
