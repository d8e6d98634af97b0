//! Tests for proof extraction and the quorum verifier.

use audius_reward_manager::error::AudiusProgramError;
use audius_reward_manager::messages::{add_sender_message, bot_oracle_message, senders_message, Transfer};
use audius_reward_manager::state::SenderAccount;
use audius_reward_manager::utils::{
    get_secp_instructions, get_signer_from_secp_instruction, validate_eth_signature,
    AmbientInstruction,
};
use audius_reward_manager::verify::{
    build_verify_secp_add_sender, build_verify_secp_transfer, check_signer, vec_into_checkmap,
    verify_add_sender_signatures, verify_signatures, verify_transfer_signatures, OperatorSet,
};

/// A signature proof blob in the recovery program's layout: 12 bytes of
/// metadata, the 20-byte recovered identity, a 65-byte signature, then
/// the signed payload.
fn make_proof(identity: [u8; 20], payload: &[u8]) -> Vec<u8> {
    let mut blob = vec![0u8; 12];
    blob.extend_from_slice(&identity);
    blob.extend_from_slice(&[0u8; 65]);
    blob.extend_from_slice(payload);
    blob
}

fn sample_transfer() -> Transfer {
    Transfer { eth_recipient: [7u8; 20], amount: 10_000, id: b"abc123".to_vec() }
}

#[test]
fn signer_extracted_from_fixed_offset() {
    let blob = make_proof([0xAB; 20], b"payload");
    assert_eq!(get_signer_from_secp_instruction(&blob), [0xAB; 20]);
}

#[test]
fn payload_match_is_exact() {
    let blob = make_proof([1u8; 20], b"expected bytes");
    assert!(validate_eth_signature(&b"expected bytes".to_vec(), &blob).is_ok());
    assert_eq!(
        validate_eth_signature(&b"expected byte".to_vec(), &blob).unwrap_err(),
        AudiusProgramError::SignatureVerificationFailed
    );
    assert_eq!(
        validate_eth_signature(&b"expected bytez".to_vec(), &blob).unwrap_err(),
        AudiusProgramError::SignatureVerificationFailed
    );
}

#[test]
fn secp_instructions_filtered_and_counted() {
    let secp_program = [11u8; 32];
    let other_program = [12u8; 32];
    let instructions = vec![
        AmbientInstruction { program_id: secp_program, data: vec![1, 2, 3] },
        AmbientInstruction { program_id: other_program, data: vec![4] },
        AmbientInstruction { program_id: secp_program, data: vec![5, 6] },
    ];
    let datas = get_secp_instructions(&instructions, 2, &secp_program).unwrap();
    assert_eq!(datas, vec![vec![1, 2, 3], vec![5, 6]]);
    assert_eq!(
        get_secp_instructions(&instructions, 3, &secp_program).unwrap_err(),
        AudiusProgramError::Secp256InstructionMissing
    );
}

#[test]
fn checkmap_rejects_unknown_and_repeated_signers() {
    let signers = vec![[1u8; 20], [2u8; 20]];
    let mut checkmap = vec_into_checkmap(&signers);
    assert!(check_signer(&mut checkmap, &[1u8; 20]).is_ok());
    assert_eq!(
        check_signer(&mut checkmap, &[1u8; 20]).unwrap_err(),
        AudiusProgramError::SignCollission
    );
    assert_eq!(
        check_signer(&mut checkmap, &[9u8; 20]).unwrap_err(),
        AudiusProgramError::WrongSigner
    );
    assert!(check_signer(&mut checkmap, &[2u8; 20]).is_ok());
}

#[test]
fn transfer_quorum_exact_count_passes() {
    // One sender and the oracle, operators distinct: counter reaches 2 = 1 + 1.
    let sender = [1u8; 20];
    let oracle_address = [2u8; 20];
    let operator_one = [10u8; 20];
    let operator_two = [11u8; 20];
    let transfer = sample_transfer();
    let bot_oracle = SenderAccount::new([0u8; 32], oracle_address, operator_two);

    let proofs = vec![
        make_proof(sender, &senders_message(&transfer, &oracle_address)),
        make_proof(oracle_address, &bot_oracle_message(&transfer)),
    ];
    let mut operators = OperatorSet::new();
    operators.insert(operator_one);
    let r = verify_transfer_signatures(&bot_oracle, &transfer, &proofs, &vec![sender], &operators);
    assert!(r.is_ok());
}

#[test]
fn transfer_quorum_one_short_fails() {
    // Two senders expected, only one signs beside the oracle: 2 != 3.
    let sender_one = [1u8; 20];
    let sender_two = [2u8; 20];
    let oracle_address = [3u8; 20];
    let transfer = sample_transfer();
    let bot_oracle = SenderAccount::new([0u8; 32], oracle_address, [12u8; 20]);

    let proofs = vec![
        make_proof(sender_one, &senders_message(&transfer, &oracle_address)),
        make_proof(oracle_address, &bot_oracle_message(&transfer)),
    ];
    let operators = OperatorSet::new();
    let r = verify_transfer_signatures(
        &bot_oracle,
        &transfer,
        &proofs,
        &vec![sender_one, sender_two],
        &operators,
    );
    assert_eq!(r.unwrap_err(), AudiusProgramError::SignatureVerificationFailed);
}

#[test]
fn transfer_missing_oracle_fails() {
    let sender = [1u8; 20];
    let oracle_address = [2u8; 20];
    let transfer = sample_transfer();
    let bot_oracle = SenderAccount::new([0u8; 32], oracle_address, [11u8; 20]);

    let proofs = vec![make_proof(sender, &senders_message(&transfer, &oracle_address))];
    let operators = OperatorSet::new();
    let r = verify_transfer_signatures(&bot_oracle, &transfer, &proofs, &vec![sender], &operators);
    assert_eq!(r.unwrap_err(), AudiusProgramError::SignatureVerificationFailed);
}

#[test]
fn transfer_unknown_identity_ignored() {
    // An extra proof from an unregistered identity neither counts nor fails.
    let sender = [1u8; 20];
    let stranger = [9u8; 20];
    let oracle_address = [2u8; 20];
    let transfer = sample_transfer();
    let bot_oracle = SenderAccount::new([0u8; 32], oracle_address, [11u8; 20]);

    let proofs = vec![
        make_proof(stranger, b"anything at all"),
        make_proof(sender, &senders_message(&transfer, &oracle_address)),
        make_proof(oracle_address, &bot_oracle_message(&transfer)),
    ];
    let operators = OperatorSet::new();
    let r = verify_transfer_signatures(&bot_oracle, &transfer, &proofs, &vec![sender], &operators);
    assert!(r.is_ok());
}

#[test]
fn transfer_duplicate_signature_fails() {
    // The same sender signs twice, both payloads valid: SignCollission.
    let sender = [1u8; 20];
    let oracle_address = [2u8; 20];
    let transfer = sample_transfer();
    let bot_oracle = SenderAccount::new([0u8; 32], oracle_address, [11u8; 20]);
    let message = senders_message(&transfer, &oracle_address);

    let proofs = vec![
        make_proof(sender, &message),
        make_proof(sender, &message),
        make_proof(oracle_address, &bot_oracle_message(&transfer)),
    ];
    let operators = OperatorSet::new();
    let r = verify_transfer_signatures(&bot_oracle, &transfer, &proofs, &vec![sender], &operators);
    assert_eq!(r.unwrap_err(), AudiusProgramError::SignCollission);
}

#[test]
fn transfer_operator_collision_fails() {
    // The oracle's operator equals the sender's operator already seeded.
    let sender = [1u8; 20];
    let oracle_address = [2u8; 20];
    let shared_operator = [10u8; 20];
    let transfer = sample_transfer();
    let bot_oracle = SenderAccount::new([0u8; 32], oracle_address, shared_operator);

    let proofs = vec![
        make_proof(sender, &senders_message(&transfer, &oracle_address)),
        make_proof(oracle_address, &bot_oracle_message(&transfer)),
    ];
    let mut operators = OperatorSet::new();
    operators.insert(shared_operator);
    let r = verify_transfer_signatures(&bot_oracle, &transfer, &proofs, &vec![sender], &operators);
    assert_eq!(r.unwrap_err(), AudiusProgramError::OperatorCollision);
}

#[test]
fn oracle_signature_not_replayable_as_sender() {
    // A sender hands in the oracle's message: exact-match comparison fails.
    let sender = [1u8; 20];
    let oracle_address = [2u8; 20];
    let transfer = sample_transfer();
    let bot_oracle = SenderAccount::new([0u8; 32], oracle_address, [11u8; 20]);

    let proofs = vec![
        make_proof(sender, &bot_oracle_message(&transfer)),
        make_proof(oracle_address, &bot_oracle_message(&transfer)),
    ];
    let operators = OperatorSet::new();
    let r = verify_transfer_signatures(&bot_oracle, &transfer, &proofs, &vec![sender], &operators);
    assert_eq!(r.unwrap_err(), AudiusProgramError::SignatureVerificationFailed);
}

#[test]
fn sender_signature_not_replayable_as_oracle() {
    // The oracle hands in the senders' message: exact-match comparison fails.
    let sender = [1u8; 20];
    let oracle_address = [2u8; 20];
    let transfer = sample_transfer();
    let bot_oracle = SenderAccount::new([0u8; 32], oracle_address, [11u8; 20]);
    let message = senders_message(&transfer, &oracle_address);

    let proofs = vec![
        make_proof(sender, &message),
        make_proof(oracle_address, &message),
    ];
    let operators = OperatorSet::new();
    let r = verify_transfer_signatures(&bot_oracle, &transfer, &proofs, &vec![sender], &operators);
    assert_eq!(r.unwrap_err(), AudiusProgramError::SignatureVerificationFailed);
}

#[test]
fn add_sender_batch_verifies() {
    let reward_manager_key = [3u8; 32];
    let new_sender = [4u8; 20];
    let signer_one = [1u8; 20];
    let signer_two = [2u8; 20];
    let message = add_sender_message(&reward_manager_key, &new_sender);

    let proofs = vec![make_proof(signer_one, &message), make_proof(signer_two, &message)];
    let r = verify_add_sender_signatures(
        &reward_manager_key,
        &new_sender,
        &proofs,
        &vec![signer_one, signer_two],
    );
    assert!(r.is_ok());

    let unknown = vec![make_proof([9u8; 20], &message)];
    assert_eq!(
        verify_add_sender_signatures(
            &reward_manager_key,
            &new_sender,
            &unknown,
            &vec![signer_one, signer_two],
        )
        .unwrap_err(),
        AudiusProgramError::WrongSigner
    );

    let doubled = vec![make_proof(signer_one, &message), make_proof(signer_one, &message)];
    assert_eq!(
        verify_add_sender_signatures(
            &reward_manager_key,
            &new_sender,
            &doubled,
            &vec![signer_one, signer_two],
        )
        .unwrap_err(),
        AudiusProgramError::SignCollission
    );

    let bad_payload = vec![make_proof(signer_one, b"something else")];
    assert_eq!(
        verify_add_sender_signatures(
            &reward_manager_key,
            &new_sender,
            &bad_payload,
            &vec![signer_one, signer_two],
        )
        .unwrap_err(),
        AudiusProgramError::SignatureVerificationFailed
    );
}

#[test]
fn context_dispatch_matches_direct_calls() {
    let sender = [1u8; 20];
    let oracle_address = [2u8; 20];
    let transfer = sample_transfer();
    let bot_oracle = SenderAccount::new([0u8; 32], oracle_address, [11u8; 20]);
    let proofs = vec![
        make_proof(sender, &senders_message(&transfer, &oracle_address)),
        make_proof(oracle_address, &bot_oracle_message(&transfer)),
    ];
    let operators = OperatorSet::new();
    let context = build_verify_secp_transfer(
        SenderAccount::new([0u8; 32], oracle_address, [11u8; 20]),
        Transfer { eth_recipient: [7u8; 20], amount: 10_000, id: b"abc123".to_vec() },
    );
    assert!(verify_signatures(&context, &proofs, &vec![sender], &operators).is_ok());
    let direct =
        verify_transfer_signatures(&bot_oracle, &transfer, &proofs, &vec![sender], &operators);
    assert!(direct.is_ok());

    let reward_manager_key = [3u8; 32];
    let new_sender = [4u8; 20];
    let message = add_sender_message(&reward_manager_key, &new_sender);
    let add_proofs = vec![make_proof(sender, &message)];
    let add_context = build_verify_secp_add_sender(reward_manager_key, new_sender);
    assert!(verify_signatures(&add_context, &add_proofs, &vec![sender], &operators).is_ok());
}

#[test]
fn transfer_oracle_alone_when_no_senders() {
    // An empty expected-sender set still requires the oracle signature
    // alone: the counter target is 1.
    let oracle_address = [2u8; 20];
    let transfer = sample_transfer();
    let bot_oracle = SenderAccount::new([0u8; 32], oracle_address, [11u8; 20]);

    let proofs = vec![make_proof(oracle_address, &bot_oracle_message(&transfer))];
    let operators = OperatorSet::new();
    let r = verify_transfer_signatures(&bot_oracle, &transfer, &proofs, &vec![], &operators);
    assert!(r.is_ok());

    let empty: Vec<Vec<u8>> = vec![];
    let r2 = verify_transfer_signatures(&bot_oracle, &transfer, &empty, &vec![], &operators);
    assert_eq!(r2.unwrap_err(), AudiusProgramError::SignatureVerificationFailed);
}

#[test]
fn transfer_oracle_signing_twice_collides() {
    // A second oracle signature meets its own operator in the collision
    // set, even with both payloads valid.
    let sender = [1u8; 20];
    let oracle_address = [2u8; 20];
    let transfer = sample_transfer();
    let bot_oracle = SenderAccount::new([0u8; 32], oracle_address, [11u8; 20]);

    let proofs = vec![
        make_proof(oracle_address, &bot_oracle_message(&transfer)),
        make_proof(oracle_address, &bot_oracle_message(&transfer)),
        make_proof(sender, &senders_message(&transfer, &oracle_address)),
    ];
    let operators = OperatorSet::new();
    let r = verify_transfer_signatures(&bot_oracle, &transfer, &proofs, &vec![sender], &operators);
    assert_eq!(r.unwrap_err(), AudiusProgramError::OperatorCollision);
}
