//! Tests for address derivation, registry assembly and mutation decisions.

use audius_reward_manager::error::AudiusProgramError;
use audius_reward_manager::processor::Processor;
use audius_reward_manager::state::{RewardManager, SenderAccount};
use audius_reward_manager::utils::{
    get_address_pair, get_base_address, get_derived_address, get_eth_addresses, sender_seed,
    AccountRecord,
};

const PROGRAM_ID: [u8; 32] = [17u8; 32];
const REWARD_MANAGER_KEY: [u8; 32] = [23u8; 32];

#[test]
fn base_address_is_deterministic_and_derived() {
    let first = get_base_address(&PROGRAM_ID, &REWARD_MANAGER_KEY).unwrap();
    let second = get_base_address(&PROGRAM_ID, &REWARD_MANAGER_KEY).unwrap();
    assert_eq!(first.address, second.address);
    assert_eq!(first.seed, second.seed);
    // The derivation digests its inputs; handing either back unchanged
    // would fail here.
    assert_ne!(first.address, REWARD_MANAGER_KEY);
    assert_ne!(first.address, PROGRAM_ID);
    // Matches the derivation of the underlying platform primitive.
    let (expected, bump) = solana_program::pubkey::Pubkey::try_find_program_address(
        &[&REWARD_MANAGER_KEY],
        &solana_program::pubkey::Pubkey::new_from_array(PROGRAM_ID),
    )
    .unwrap();
    assert_eq!(first.address, expected.to_bytes());
    assert_eq!(first.seed, bump);
}

#[test]
fn derived_seed_is_base58_of_seed_bytes() {
    let base = get_base_address(&PROGRAM_ID, &REWARD_MANAGER_KEY).unwrap();
    let derived = get_derived_address(&PROGRAM_ID, &base.address, &vec![1u8, 2, 3]).unwrap();
    assert_eq!(derived.seed, "Ldp");
    assert_eq!(derived.seed, bs58::encode(&[1u8, 2, 3]).into_string());
    assert_ne!(derived.address, base.address);
    // Matches the derivation of the underlying platform primitive.
    let expected = solana_program::pubkey::Pubkey::create_with_seed(
        &solana_program::pubkey::Pubkey::new_from_array(base.address),
        "Ldp",
        &solana_program::pubkey::Pubkey::new_from_array(PROGRAM_ID),
    )
    .unwrap();
    assert_eq!(derived.address, expected.to_bytes());
}

#[test]
fn oversized_seed_rejected() {
    let base = get_base_address(&PROGRAM_ID, &REWARD_MANAGER_KEY).unwrap();
    // 30 bytes encode to well over the 32-character seed maximum.
    let r = get_derived_address(&PROGRAM_ID, &base.address, &vec![255u8; 30]);
    assert_eq!(r.unwrap_err(), AudiusProgramError::InvalidSeeds);
}

#[test]
fn address_pair_combines_both_derivations() {
    let eth_address = [6u8; 20];
    let seed = sender_seed(&eth_address);
    assert_eq!(&seed[..2], b"S_");
    assert_eq!(&seed[2..], &eth_address);
    let pair = get_address_pair(&PROGRAM_ID, &REWARD_MANAGER_KEY, seed).unwrap();
    let base = get_base_address(&PROGRAM_ID, &REWARD_MANAGER_KEY).unwrap();
    assert_eq!(pair.base.address, base.address);
    let derived =
        get_derived_address(&PROGRAM_ID, &base.address, &sender_seed(&eth_address)).unwrap();
    assert_eq!(pair.derive.address, derived.address);
    assert_eq!(pair.derive.seed, derived.seed);
}

fn sender_record(eth_address: [u8; 20], operator: [u8; 20]) -> AccountRecord {
    let data = SenderAccount::new(REWARD_MANAGER_KEY, eth_address, operator).serialize();
    let pair =
        get_address_pair(&PROGRAM_ID, &REWARD_MANAGER_KEY, sender_seed(&eth_address)).unwrap();
    AccountRecord { key: pair.derive.address, owner: PROGRAM_ID, data }
}

#[test]
fn eth_addresses_assembled_in_order() {
    let records = vec![sender_record([1u8; 20], [10u8; 20]), sender_record([2u8; 20], [11u8; 20])];
    let (addresses, operators) = get_eth_addresses(&PROGRAM_ID, &REWARD_MANAGER_KEY, &records).unwrap();
    assert_eq!(addresses, vec![[1u8; 20], [2u8; 20]]);
    assert!(operators.contains(&[10u8; 20]));
    assert!(operators.contains(&[11u8; 20]));
    assert!(!operators.contains(&[12u8; 20]));
}

#[test]
fn eth_addresses_rejects_uninitialized_record() {
    let mut record = sender_record([1u8; 20], [10u8; 20]);
    record.data[0] = 0;
    assert_eq!(
        get_eth_addresses(&PROGRAM_ID, &REWARD_MANAGER_KEY, &vec![record]).unwrap_err(),
        AudiusProgramError::UninitializedAccount
    );
}

#[test]
fn eth_addresses_rejects_foreign_owner() {
    let mut record = sender_record([1u8; 20], [10u8; 20]);
    record.owner = [99u8; 32];
    assert_eq!(
        get_eth_addresses(&PROGRAM_ID, &REWARD_MANAGER_KEY, &vec![record]).unwrap_err(),
        AudiusProgramError::IncorrectProgramId
    );
}

#[test]
fn eth_addresses_rejects_wrong_account_address() {
    let mut record = sender_record([1u8; 20], [10u8; 20]);
    record.key = [99u8; 32];
    assert_eq!(
        get_eth_addresses(&PROGRAM_ID, &REWARD_MANAGER_KEY, &vec![record]).unwrap_err(),
        AudiusProgramError::InvalidSeeds
    );
}

#[test]
fn eth_addresses_rejects_repeated_sender() {
    let records = vec![sender_record([1u8; 20], [10u8; 20]), sender_record([1u8; 20], [11u8; 20])];
    assert_eq!(
        get_eth_addresses(&PROGRAM_ID, &REWARD_MANAGER_KEY, &records).unwrap_err(),
        AudiusProgramError::RepeatedSenders
    );
}

#[test]
fn eth_addresses_rejects_shared_operator() {
    let records = vec![sender_record([1u8; 20], [10u8; 20]), sender_record([2u8; 20], [10u8; 20])];
    assert_eq!(
        get_eth_addresses(&PROGRAM_ID, &REWARD_MANAGER_KEY, &records).unwrap_err(),
        AudiusProgramError::OperatorCollision
    );
}

#[test]
fn init_requires_fresh_registry_and_derived_authority() {
    let fresh = vec![0u8; 66];
    let base = get_base_address(&PROGRAM_ID, &REWARD_MANAGER_KEY).unwrap();
    let rm = Processor::process_init_instruction(
        &PROGRAM_ID,
        &REWARD_MANAGER_KEY,
        &fresh,
        &[40u8; 32],
        &[41u8; 32],
        &base.address,
        3,
    )
    .unwrap();
    assert_eq!(rm.version, 1);
    assert_eq!(rm.token_account, [40u8; 32]);
    assert_eq!(rm.manager, [41u8; 32]);
    assert_eq!(rm.min_votes, 3);

    let initialized = rm.serialize();
    assert_eq!(
        Processor::process_init_instruction(
            &PROGRAM_ID,
            &REWARD_MANAGER_KEY,
            &initialized,
            &[40u8; 32],
            &[41u8; 32],
            &base.address,
            3,
        )
        .unwrap_err(),
        AudiusProgramError::AccountAlreadyInitialized
    );

    assert_eq!(
        Processor::process_init_instruction(
            &PROGRAM_ID,
            &REWARD_MANAGER_KEY,
            &fresh,
            &[40u8; 32],
            &[41u8; 32],
            &[99u8; 32],
            3,
        )
        .unwrap_err(),
        AudiusProgramError::InvalidAccountData
    );
}

#[test]
fn create_sender_demands_manager_authority() {
    let manager = [41u8; 32];
    let rm_data = RewardManager::new([40u8; 32], manager, 3).serialize();
    let eth_address = [6u8; 20];
    let operator = [7u8; 20];
    let pair =
        get_address_pair(&PROGRAM_ID, &REWARD_MANAGER_KEY, sender_seed(&eth_address)).unwrap();

    // By the manager, with the correctly derived target: succeeds, and the
    // persisted sender carries the declared operator.
    let (sender, created_pair) = Processor::process_create_sender(
        &PROGRAM_ID,
        eth_address,
        operator,
        &REWARD_MANAGER_KEY,
        &rm_data,
        &manager,
        &pair.derive.address,
    )
    .unwrap();
    assert_eq!(sender.operator, operator);
    assert_eq!(sender.eth_address, eth_address);
    assert_eq!(sender.reward_manager, REWARD_MANAGER_KEY);
    assert_eq!(created_pair.derive.address, pair.derive.address);

    // By anyone else: refused.
    assert_eq!(
        Processor::process_create_sender(
            &PROGRAM_ID,
            eth_address,
            operator,
            &REWARD_MANAGER_KEY,
            &rm_data,
            &[99u8; 32],
            &pair.derive.address,
        )
        .unwrap_err(),
        AudiusProgramError::IncorectManagerAccount
    );

    // With a target that does not match the derivation: refused.
    assert_eq!(
        Processor::process_create_sender(
            &PROGRAM_ID,
            eth_address,
            operator,
            &REWARD_MANAGER_KEY,
            &rm_data,
            &manager,
            &[99u8; 32],
        )
        .unwrap_err(),
        AudiusProgramError::IncorectSenderAccount
    );

    // Against an uninitialized registry: refused.
    assert_eq!(
        Processor::process_create_sender(
            &PROGRAM_ID,
            eth_address,
            operator,
            &REWARD_MANAGER_KEY,
            &vec![0u8; 66],
            &manager,
            &pair.derive.address,
        )
        .unwrap_err(),
        AudiusProgramError::UninitializedAccount
    );
}

#[test]
fn delete_sender_sweeps_whole_balance() {
    let manager = [41u8; 32];
    let rm_data = RewardManager::new([40u8; 32], manager, 3).serialize();
    let sender_data = SenderAccount::new(REWARD_MANAGER_KEY, [6u8; 20], [7u8; 20]).serialize();

    let (source, destination) = Processor::process_delete_sender(
        &REWARD_MANAGER_KEY,
        &rm_data,
        &manager,
        &sender_data,
        1_000,
        234,
    )
    .unwrap();
    assert_eq!(source, 0);
    assert_eq!(destination, 1_234);

    // A sender referencing another registry: refused.
    let foreign_sender = SenderAccount::new([77u8; 32], [6u8; 20], [7u8; 20]).serialize();
    assert_eq!(
        Processor::process_delete_sender(
            &REWARD_MANAGER_KEY,
            &rm_data,
            &manager,
            &foreign_sender,
            1_000,
            234,
        )
        .unwrap_err(),
        AudiusProgramError::IncorectRewardManager
    );

    // A caller without manager authority: refused.
    assert_eq!(
        Processor::process_delete_sender(
            &REWARD_MANAGER_KEY,
            &rm_data,
            &[99u8; 32],
            &sender_data,
            1_000,
            234,
        )
        .unwrap_err(),
        AudiusProgramError::IncorectManagerAccount
    );
}

#[test]
fn transfer_all_leaves_source_empty() {
    let (source, destination) = Processor::transfer_all(5_000, 1);
    assert_eq!(source, 0);
    assert_eq!(destination, 5_001);
    let (source2, destination2) = Processor::transfer_all(0, 7);
    assert_eq!(source2, 0);
    assert_eq!(destination2, 7);
}
