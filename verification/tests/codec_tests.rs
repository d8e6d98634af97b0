//! Tests for the message codec, the instruction codec and the state codec.

use audius_reward_manager::error::AudiusProgramError;
use audius_reward_manager::instruction::{decode_instruction, encode_instruction, Instructions};
use audius_reward_manager::messages::{
    add_sender_message, bot_oracle_message, senders_message, Transfer,
};
use audius_reward_manager::state::{RewardManager, SenderAccount};

fn sample_transfer() -> Transfer {
    Transfer { eth_recipient: [7u8; 20], amount: 10_000, id: b"abc123".to_vec() }
}

#[test]
fn senders_message_exact_bytes() {
    let oracle = [9u8; 20];
    let transfer = sample_transfer();
    let expected: Vec<u8> = [
        [7u8; 20].as_ref(),
        b"_",
        10_000u64.to_le_bytes().as_ref(),
        b"_",
        b"abc123",
        b"_",
        oracle.as_ref(),
    ]
    .concat();
    assert_eq!(senders_message(&transfer, &oracle), expected);
}

#[test]
fn bot_oracle_message_exact_bytes() {
    let transfer = sample_transfer();
    let expected: Vec<u8> =
        [[7u8; 20].as_ref(), b"_", 10_000u64.to_le_bytes().as_ref(), b"_", b"abc123"].concat();
    assert_eq!(bot_oracle_message(&transfer), expected);
}

#[test]
fn transfer_messages_are_distinct() {
    let oracle = [9u8; 20];
    let transfer = sample_transfer();
    assert_ne!(senders_message(&transfer, &oracle), bot_oracle_message(&transfer));
}

#[test]
fn add_sender_message_exact_bytes() {
    let reward_manager = [3u8; 32];
    let new_sender = [4u8; 20];
    let expected: Vec<u8> = [[3u8; 32].as_ref(), [4u8; 20].as_ref()].concat();
    assert_eq!(add_sender_message(&reward_manager, &new_sender), expected);
}

#[test]
fn reward_manager_round_trip() {
    let rm = RewardManager::new([1u8; 32], [2u8; 32], 3);
    let bytes = rm.serialize();
    assert_eq!(bytes.len(), 66);
    assert_eq!(bytes[0], 1);
    let back = RewardManager::try_from_slice(&bytes).unwrap();
    assert_eq!(back.version, 1);
    assert_eq!(back.token_account, [1u8; 32]);
    assert_eq!(back.manager, [2u8; 32]);
    assert_eq!(back.min_votes, 3);
    assert!(back.is_initialized());
}

#[test]
fn reward_manager_wrong_length_rejected() {
    let bytes = vec![0u8; 65];
    assert_eq!(
        RewardManager::try_from_slice(&bytes).unwrap_err(),
        AudiusProgramError::InvalidAccountData
    );
}

#[test]
fn sender_account_round_trip() {
    let sender = SenderAccount::new([5u8; 32], [6u8; 20], [7u8; 20]);
    let bytes = sender.serialize();
    assert_eq!(bytes.len(), 73);
    let back = SenderAccount::try_from_slice(&bytes).unwrap();
    assert_eq!(back.version, 1);
    assert_eq!(back.reward_manager, [5u8; 32]);
    assert_eq!(back.eth_address, [6u8; 20]);
    assert_eq!(back.operator, [7u8; 20]);
    assert!(back.is_initialized());
}

#[test]
fn uninitialized_sender_account_detected() {
    let mut bytes = SenderAccount::new([5u8; 32], [6u8; 20], [7u8; 20]).serialize();
    bytes[0] = 0;
    let back = SenderAccount::try_from_slice(&bytes).unwrap();
    assert!(!back.is_initialized());
}

#[test]
fn instruction_round_trip_init() {
    let encoded = encode_instruction(&Instructions::InitRewardManager { min_votes: 5 });
    assert_eq!(encoded, vec![0u8, 5u8]);
    match decode_instruction(&encoded).unwrap() {
        Instructions::InitRewardManager { min_votes } => assert_eq!(min_votes, 5),
        _ => panic!("wrong variant"),
    }
}

#[test]
fn instruction_round_trip_create_sender() {
    let encoded =
        encode_instruction(&Instructions::CreateSender { eth_address: [8u8; 20], operator: [9u8; 20] });
    assert_eq!(encoded.len(), 41);
    assert_eq!(encoded[0], 1);
    match decode_instruction(&encoded).unwrap() {
        Instructions::CreateSender { eth_address, operator } => {
            assert_eq!(eth_address, [8u8; 20]);
            assert_eq!(operator, [9u8; 20]);
        },
        _ => panic!("wrong variant"),
    }
}

#[test]
fn instruction_round_trip_delete_sender() {
    let encoded = encode_instruction(&Instructions::DeleteSender);
    assert_eq!(encoded, vec![2u8]);
    assert!(matches!(decode_instruction(&encoded).unwrap(), Instructions::DeleteSender));
}

#[test]
fn instruction_bad_shapes_rejected() {
    assert_eq!(
        decode_instruction(&vec![]).unwrap_err(),
        AudiusProgramError::InvalidAccountData
    );
    assert_eq!(
        decode_instruction(&vec![0u8]).unwrap_err(),
        AudiusProgramError::InvalidAccountData
    );
    assert_eq!(
        decode_instruction(&vec![1u8; 40]).unwrap_err(),
        AudiusProgramError::InvalidAccountData
    );
    assert_eq!(
        decode_instruction(&vec![3u8]).unwrap_err(),
        AudiusProgramError::InvalidAccountData
    );
}

#[test]
fn error_messages_are_stable() {
    assert_eq!(
        AudiusProgramError::SignCollission.message(),
        "Signature with an already met principal"
    );
    assert_eq!(
        AudiusProgramError::SignatureVerificationFailed.message(),
        "Signature verification failed"
    );
}
