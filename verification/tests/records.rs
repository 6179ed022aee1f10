use hello_dao::error::BorshError;
use hello_dao::instructions::{CreateProposalV1InstructionData, DaoInstruction, InitDaoV1InstructionData};
use hello_dao::pubkey::Pubkey;
use hello_dao::states::{DaoV1, ProposalStatus, ProposalV1, VaultV1};

fn key(b: u8) -> Pubkey {
    Pubkey([b; 32])
}

#[test]
fn record_sizes_match_declared_lengths() {
    assert_eq!(DaoV1::LEN, 32 + 8);
    assert_eq!(ProposalV1::LEN, 81);
    assert_eq!(VaultV1::LEN, 8);
    let d = DaoV1 { admin: key(1), vote_threshold: 9 };
    assert_eq!(d.to_bytes().len(), DaoV1::LEN);
    let v = VaultV1 { amount: 3 };
    assert_eq!(v.to_bytes().len(), VaultV1::LEN);
}

#[test]
fn seeds_are_the_ascii_names() {
    assert_eq!(DaoV1::seed(), b"dao_v1".to_vec());
    assert_eq!(VaultV1::seed(), b"vault_v1".to_vec());
    assert_eq!(ProposalV1::seed(), b"proposal_v1".to_vec());
}

#[test]
fn dao_layout_matches_borsh() {
    let d = DaoV1 { admin: key(0xAB), vote_threshold: 0x0102_0304_0506_0708 };
    let expected = borsh::to_vec(&([0xABu8; 32], 0x0102_0304_0506_0708u64)).unwrap();
    assert_eq!(d.to_bytes(), expected);
    assert_eq!(DaoV1::try_from_slice(&expected), Ok(d));
}

#[test]
fn vault_layout_matches_borsh() {
    let v = VaultV1 { amount: 1_000_000_007 };
    let expected = borsh::to_vec(&1_000_000_007u64).unwrap();
    assert_eq!(v.to_bytes(), expected);
    assert_eq!(VaultV1::try_from_slice(&expected), Ok(v));
}

#[test]
fn proposal_layout_matches_borsh() {
    for (status, tag) in [(ProposalStatus::Active, 0u8), (ProposalStatus::Passed, 1), (ProposalStatus::Executed, 2)] {
        let p = ProposalV1 { author: key(1), target_recipient: key(2), amount: 500, current_vote: 77, status };
        let expected = borsh::to_vec(&([1u8; 32], [2u8; 32], 500u64, 77u64, tag)).unwrap();
        assert_eq!(p.to_bytes(), expected);
        assert_eq!(ProposalV1::try_from_slice(&expected), Ok(p));
    }
}

#[test]
fn short_and_long_buffers_are_refused() {
    assert_eq!(DaoV1::try_from_slice(&[0u8; 39]), Err(BorshError::UnexpectedLength));
    assert_eq!(DaoV1::try_from_slice(&[0u8; 41]), Err(BorshError::NotAllBytesRead));
    assert_eq!(VaultV1::try_from_slice(&[0u8; 7]), Err(BorshError::UnexpectedLength));
    assert_eq!(VaultV1::try_from_slice(&[0u8; 9]), Err(BorshError::NotAllBytesRead));
    assert_eq!(ProposalV1::try_from_slice(&[0u8; 80]), Err(BorshError::UnexpectedLength));
    assert_eq!(ProposalV1::try_from_slice(&[0u8; 82]), Err(BorshError::NotAllBytesRead));
}

#[test]
fn unknown_status_tag_is_refused_before_trailing_bytes() {
    let mut data = vec![0u8; 82];
    data[80] = 3;
    assert_eq!(ProposalV1::try_from_slice(&data), Err(BorshError::UnexpectedVariantTag(3)));
    data.truncate(81);
    assert_eq!(ProposalV1::try_from_slice(&data), Err(BorshError::UnexpectedVariantTag(3)));
}

#[test]
fn serialize_into_keeps_the_tail_and_refuses_short_buffers() {
    let v = VaultV1 { amount: 0x11 };
    let mut data = vec![9u8; 10];
    assert_eq!(v.serialize_into(&mut data), Ok(()));
    assert_eq!(data, vec![0x11, 0, 0, 0, 0, 0, 0, 0, 9, 9]);
    let mut short = vec![9u8; 7];
    assert_eq!(v.serialize_into(&mut short), Err(BorshError::WriteZero));
    assert_eq!(short, vec![9u8; 7]);
}

#[test]
fn instruction_tags_follow_the_table() {
    let init = DaoInstruction::InitDaoV1(InitDaoV1InstructionData { vote_threshold: 5, vested_amount: 1000 });
    let mut expected = vec![0u8];
    expected.extend_from_slice(&5u64.to_le_bytes());
    expected.extend_from_slice(&1000u64.to_le_bytes());
    assert_eq!(init.to_bytes(), expected);
    assert_eq!(DaoInstruction::try_from_slice(&expected), Ok(init));

    let create = DaoInstruction::CreateProposalV1(CreateProposalV1InstructionData { target_recipient: key(4), amount: 1_000_000 });
    let mut expected = vec![1u8];
    expected.extend_from_slice(&[4u8; 32]);
    expected.extend_from_slice(&1_000_000u64.to_le_bytes());
    assert_eq!(create.to_bytes(), expected);
    assert_eq!(DaoInstruction::try_from_slice(&expected), Ok(create));

    assert_eq!(DaoInstruction::CastVoteV1.to_bytes(), vec![2u8]);
    assert_eq!(DaoInstruction::ExecuteProposalV1.to_bytes(), vec![3u8]);
    assert_eq!(DaoInstruction::try_from_slice(&[2]), Ok(DaoInstruction::CastVoteV1));
    assert_eq!(DaoInstruction::try_from_slice(&[3]), Ok(DaoInstruction::ExecuteProposalV1));
}

#[test]
fn malformed_instructions_are_refused() {
    assert_eq!(DaoInstruction::try_from_slice(&[]), Err(BorshError::UnexpectedLength));
    assert_eq!(DaoInstruction::try_from_slice(&[4]), Err(BorshError::UnexpectedVariantTag(4)));
    assert_eq!(DaoInstruction::try_from_slice(&[2, 0]), Err(BorshError::NotAllBytesRead));
    assert_eq!(DaoInstruction::try_from_slice(&[0, 1, 2]), Err(BorshError::UnexpectedLength));
    assert_eq!(DaoInstruction::try_from_slice(&[1; 42]), Err(BorshError::NotAllBytesRead));
}

#[test]
fn readable_buffers_are_written_back_unchanged() {
    let mut data: Vec<u8> = (0..81u32).map(|i| (i * 37 % 251) as u8).collect();
    data[80] = 1;
    let p = ProposalV1::try_from_slice(&data).unwrap();
    assert_eq!(p.to_bytes(), data);
    let d: Vec<u8> = (0..40u32).map(|i| (i * 11 % 256) as u8).collect();
    assert_eq!(DaoV1::try_from_slice(&d).unwrap().to_bytes(), d);
    let i: Vec<u8> = std::iter::once(1u8).chain((0..40u32).map(|i| (i * 3) as u8)).collect();
    assert_eq!(DaoInstruction::try_from_slice(&i).unwrap().to_bytes(), i);
}
