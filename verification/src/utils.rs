//! Deterministic account-address derivation and signature-proof extraction.

use vstd::prelude::*;

use crate::error::AudiusProgramError;
use crate::{solana_key_eq, EthereumAddress, SolanaKey};

verus! {

/// Base program-derived account related with some reward manager.
#[derive(Debug)]
pub struct Base {
    pub address: SolanaKey,
    pub seed: u8,
}

/// Derived account related with some `Base` and a seed string.
#[derive(Debug)]
pub struct Derived {
    pub address: SolanaKey,
    pub seed: String,
}

/// Base together with its derived account.
#[derive(Debug)]
pub struct AddressPair {
    pub base: Base,
    pub derive: Derived,
}

/// What `Pubkey::try_find_program_address` returns for a single-seed
/// derivation: a pure function of the seed bytes and the program id.
pub uninterp spec fn program_address_of(seed: Seq<u8>, program_id: Seq<u8>) -> Option<
    (Seq<u8>, u8),
>;

/// What `Pubkey::create_with_seed` derives: a pure function of the base
/// address, the seed string and the owner.
pub uninterp spec fn seeded_address_of(base: Seq<u8>, seed: Seq<char>, owner: Seq<u8>) -> Seq<u8>;

/// What `bs58::encode` produces for a byte string.
pub uninterp spec fn bs58_of(bytes: Seq<u8>) -> Seq<char>;

/// Whether a string holds ASCII characters alone, so that its byte length
/// equals its character length.
pub open spec fn spec_is_ascii(s: Seq<char>) -> bool {
    forall|i: int| 0 <= i < s.len() ==> (#[trigger] s[i] as u32) < 128
}

/// Relies on `Pubkey::try_find_program_address` (solana-program): the
/// program-derived address is computed from the seed bytes and the program
/// id alone, by a deterministic search over SHA-256 digests; `None` comes
/// back only when no bump seed yields a valid address.
#[verifier::external_body]
fn pubkey_try_find_program_address(seed: &SolanaKey, program_id: &SolanaKey) -> (r: Option<
    (SolanaKey, u8),
>)
    ensures
        r is Some <==> program_address_of(seed@, program_id@) is Some,
        r is Some ==> r->Some_0.0@ == program_address_of(seed@, program_id@)->Some_0.0,
        r is Some ==> r->Some_0.1 == program_address_of(seed@, program_id@)->Some_0.1,
{
    let (key, bump) = solana_program::pubkey::Pubkey::try_find_program_address(
        &[seed.as_slice()],
        &solana_program::pubkey::Pubkey::new_from_array(*program_id),
    )?;
    Some((key.to_bytes(), bump))
}

/// Relies on `Pubkey::create_with_seed` (solana-program): the derived
/// address is the SHA-256 digest of base, seed and owner, a pure function
/// of its arguments; it fails exactly when the seed is longer than the
/// 32-byte maximum or the owner carries the program-derived-address marker
/// suffix. The seed is confined to ASCII so that the byte length the
/// outside check measures equals the character length spoken of here.
#[verifier::external_body]
fn pubkey_create_with_seed(base: &SolanaKey, seed: &str, owner: &SolanaKey) -> (r: Result<
    SolanaKey,
    solana_program::pubkey::PubkeyError,
>)
    requires
        spec_is_ascii(seed@),
    ensures
        r is Ok ==> r->Ok_0@ == seeded_address_of(base@, seed@, owner@),
        r is Ok <==> (seed@.len() <= 32 && !spec_has_pda_marker(owner@)),
{
    let key = solana_program::pubkey::Pubkey::create_with_seed(
        &solana_program::pubkey::Pubkey::new_from_array(*base),
        seed,
        &solana_program::pubkey::Pubkey::new_from_array(*owner),
    )?;
    Ok(key.to_bytes())
}

/// The declaration of `PubkeyError` (solana-program), the error of
/// `Pubkey::create_with_seed`.
#[verifier::external_type_specification]
#[verifier::external_body]
pub struct ExPubkeyError(solana_program::pubkey::PubkeyError);

/// The 21-byte suffix that marks an owner as a program-derived address,
/// which `Pubkey::create_with_seed` refuses: the bytes of
/// `"ProgramDerivedAddress"`.
pub open spec fn spec_pda_marker() -> Seq<u8> {
    seq![
        80u8, 114u8, 111u8, 103u8, 114u8, 97u8, 109u8, 68u8, 101u8, 114u8, 105u8, 118u8, 101u8,
        100u8, 65u8, 100u8, 100u8, 114u8, 101u8, 115u8, 115u8,
    ]
}

/// Whether a 32-byte owner ends with the program-derived-address marker.
pub open spec fn spec_has_pda_marker(owner: Seq<u8>) -> bool {
    owner.len() == 32 && owner.subrange(11, 32) == spec_pda_marker()
}

/// Relies on `bs58::encode` (bs58): the base-58 encoding is a pure function
/// of the input bytes, over an alphabet of ASCII characters alone.
#[verifier::external_body]
fn bs58_encode(bytes: &Vec<u8>) -> (r: String)
    ensures
        r@ == bs58_of(bytes@),
        spec_is_ascii(r@),
{
    bs58::encode(bytes).into_string()
}

/// Return the program-derived `Base` account corresponding to a specific
/// reward manager, with its bump seed.
pub fn get_base_address(program_id: &SolanaKey, reward_manager: &SolanaKey) -> (r: Result<
    Base,
    AudiusProgramError,
>)
    ensures
        r is Ok <==> program_address_of(reward_manager@, program_id@) is Some,
        r is Ok ==> r->Ok_0.address@ == program_address_of(reward_manager@, program_id@)->Some_0.0,
        r is Ok ==> r->Ok_0.seed == program_address_of(reward_manager@, program_id@)->Some_0.1,
        r is Err ==> r->Err_0 == AudiusProgramError::InvalidSeeds,
{
    match pubkey_try_find_program_address(reward_manager, program_id) {
        Some((address, seed)) => Ok(Base { address, seed }),
        None => Err(AudiusProgramError::InvalidSeeds),
    }
}

/// Return the derived account address corresponding to a base account and
/// seed bytes, together with the base-58 seed string actually used.
pub fn get_derived_address(program_id: &SolanaKey, base: &SolanaKey, seeds: &Vec<u8>) -> (r: Result<
    Derived,
    AudiusProgramError,
>)
    ensures
        r is Ok <==> (bs58_of(seeds@).len() <= 32 && !spec_has_pda_marker(program_id@)),
        r is Ok ==> r->Ok_0.address@ == seeded_address_of(base@, bs58_of(seeds@), program_id@),
        r is Ok ==> r->Ok_0.seed@ == bs58_of(seeds@),
        r is Err ==> r->Err_0 == AudiusProgramError::InvalidSeeds,
{
    let eseed = bs58_encode(seeds);
    match pubkey_create_with_seed(base, eseed.as_str(), program_id) {
        Ok(address) => Ok(Derived { address, seed: eseed }),
        Err(_) => Err(AudiusProgramError::InvalidSeeds),
    }
}

/// The address a `Base` derivation yields for the given inputs, `None`
/// where either derivation step fails.
pub open spec fn spec_address_pair(program_id: Seq<u8>, reward_manager: Seq<u8>, seed: Seq<u8>) -> Option<
    (Seq<u8>, u8, Seq<u8>, Seq<char>),
> {
    match program_address_of(reward_manager, program_id) {
        Some((base, bump)) => if bs58_of(seed).len() <= 32 && !spec_has_pda_marker(program_id) {
            Some((base, bump, seeded_address_of(base, bs58_of(seed), program_id), bs58_of(seed)))
        } else {
            None
        },
        None => None,
    }
}

/// The seed prefix under which sender accounts are placed: the bytes of
/// `"S_"`.
pub open spec fn spec_sender_seed_prefix() -> Seq<u8> {
    seq![83u8, 95u8]
}

/// The seed bytes for a sender account: the fixed prefix followed by the
/// attester identity.
pub open spec fn spec_sender_seed(eth_address: Seq<u8>) -> Seq<u8> {
    spec_sender_seed_prefix() + eth_address
}

/// Build the seed bytes that place the sender account of an attester.
pub fn sender_seed(eth_address: &EthereumAddress) -> (r: Vec<u8>)
    ensures
        r@ == spec_sender_seed(eth_address@),
{
    let mut seed: Vec<u8> = Vec::new();
    seed.push(83u8);
    seed.push(95u8);
    let mut i: usize = 0;
    while i < 20
        invariant
            i <= 20,
            seed@.len() == 2 + i,
            seed@ == spec_sender_seed_prefix() + eth_address@.subrange(0, i as int),
        decreases 20 - i,
    {
        seed.push(eth_address[i]);
        proof {
            assert(seed@ =~= spec_sender_seed_prefix() + eth_address@.subrange(0, i + 1));
        }
        i += 1;
    }
    proof {
        assert(eth_address@.subrange(0, 20) =~= eth_address@);
    }
    seed
}

/// Return the `Base` account for a reward manager and the account derived
/// from it with the given seed bytes.
pub fn get_address_pair(program_id: &SolanaKey, reward_manager: &SolanaKey, seed: Vec<u8>) -> (r:
    Result<AddressPair, AudiusProgramError>)
    ensures
        r is Ok <==> spec_address_pair(program_id@, reward_manager@, seed@) is Some,
        r is Ok ==> r->Ok_0.base.address@ == spec_address_pair(
            program_id@,
            reward_manager@,
            seed@,
        )->Some_0.0,
        r is Ok ==> r->Ok_0.base.seed == spec_address_pair(
            program_id@,
            reward_manager@,
            seed@,
        )->Some_0.1,
        r is Ok ==> r->Ok_0.derive.address@ == spec_address_pair(
            program_id@,
            reward_manager@,
            seed@,
        )->Some_0.2,
        r is Ok ==> r->Ok_0.derive.seed@ == spec_address_pair(
            program_id@,
            reward_manager@,
            seed@,
        )->Some_0.3,
        r is Err ==> r->Err_0 == AudiusProgramError::InvalidSeeds,
{
    let base = get_base_address(program_id, reward_manager)?;
    let derive = get_derived_address(program_id, &base.address, &seed)?;
    Ok(AddressPair { base, derive })
}

/// One sender account as handed to verification: its address, the program
/// that owns it, and its raw stored data.
#[derive(Debug)]
pub struct AccountRecord {
    pub key: SolanaKey,
    pub owner: SolanaKey,
    pub data: Vec<u8>,
}

/// Assembling one sender account into the expected-signer set: decode the
/// record, demand an initialized record owned by this program whose
/// account address matches the derivation from its attester identity, and
/// reject repeated attesters and repeated operators.
pub open spec fn spec_collect_sender_step(
    program_id: Seq<u8>,
    reward_manager: Seq<u8>,
    record: AccountRecord,
    addresses: Seq<Seq<u8>>,
    operators: Set<Seq<u8>>,
) -> Result<(Seq<Seq<u8>>, Set<Seq<u8>>), AudiusProgramError> {
    let d = record.data@;
    if d.len() != crate::state::SENDER_ACCOUNT_LEN {
        Err(AudiusProgramError::InvalidAccountData)
    } else {
        let eth_address = d.subrange(33, 53);
        let operator = d.subrange(53, 73);
        if d[0] == 0 {
            Err(AudiusProgramError::UninitializedAccount)
        } else if record.owner@ != program_id {
            Err(AudiusProgramError::IncorrectProgramId)
        } else {
            match spec_address_pair(program_id, reward_manager, spec_sender_seed(eth_address)) {
                None => Err(AudiusProgramError::InvalidSeeds),
                Some(pair) => if pair.2 != record.key@ {
                    Err(AudiusProgramError::InvalidSeeds)
                } else if addresses.contains(eth_address) {
                    Err(AudiusProgramError::RepeatedSenders)
                } else if operators.contains(operator) {
                    Err(AudiusProgramError::OperatorCollision)
                } else {
                    Ok((addresses.push(eth_address), operators.insert(operator)))
                },
            }
        }
    }
}

/// Assembling a whole list of sender accounts, in order, stopping at the
/// first violation.
pub open spec fn spec_collect_senders(
    program_id: Seq<u8>,
    reward_manager: Seq<u8>,
    records: Seq<AccountRecord>,
    addresses: Seq<Seq<u8>>,
    operators: Set<Seq<u8>>,
) -> Result<(Seq<Seq<u8>>, Set<Seq<u8>>), AudiusProgramError>
    decreases records.len(),
{
    if records.len() == 0 {
        Ok((addresses, operators))
    } else {
        match spec_collect_sender_step(
            program_id,
            reward_manager,
            records.first(),
            addresses,
            operators,
        ) {
            Err(e) => Err(e),
            Ok(st) => spec_collect_senders(
                program_id,
                reward_manager,
                records.drop_first(),
                st.0,
                st.1,
            ),
        }
    }
}

/// The outcome of assembling the expected-signer set from scratch.
pub open spec fn spec_get_eth_addresses(
    program_id: Seq<u8>,
    reward_manager: Seq<u8>,
    records: Seq<AccountRecord>,
) -> Result<(Seq<Seq<u8>>, Set<Seq<u8>>), AudiusProgramError> {
    spec_collect_senders(program_id, reward_manager, records, Seq::empty(), Set::empty())
}

/// Assemble the expected-signer set for a verification pass from the
/// given sender accounts: their attester identities in order, and the set
/// of their operators, with every record checked for integrity and both
/// attesters and operators demanded pairwise distinct.
pub fn get_eth_addresses(
    program_id: &SolanaKey,
    reward_manager_key: &SolanaKey,
    signers: &Vec<AccountRecord>,
) -> (r: Result<(Vec<EthereumAddress>, crate::verify::OperatorSet), AudiusProgramError>)
    ensures
        r is Ok <==> spec_get_eth_addresses(program_id@, reward_manager_key@, signers@) is Ok,
        r is Ok ==> crate::verify::spec_addresses(r->Ok_0.0@) == spec_get_eth_addresses(
            program_id@,
            reward_manager_key@,
            signers@,
        )->Ok_0.0,
        r is Ok ==> r->Ok_0.1@ == spec_get_eth_addresses(
            program_id@,
            reward_manager_key@,
            signers@,
        )->Ok_0.1,
        r is Err ==> r->Err_0 == spec_get_eth_addresses(
            program_id@,
            reward_manager_key@,
            signers@,
        )->Err_0,
{
    let mut senders_eth_addresses: Vec<EthereumAddress> = Vec::new();
    let mut operators = crate::verify::OperatorSet::new();
    let n = signers.len();
    let mut ind: usize = 0;
    proof {
        assert(signers@.skip(0) =~= signers@);
        assert(crate::verify::spec_addresses(senders_eth_addresses@) =~= Seq::<Seq<u8>>::empty());
    }
    while ind < n
        invariant
            ind <= n,
            n == signers@.len(),
            spec_collect_senders(
                program_id@,
                reward_manager_key@,
                signers@,
                Seq::empty(),
                Set::empty(),
            ) == spec_collect_senders(
                program_id@,
                reward_manager_key@,
                signers@.skip(ind as int),
                crate::verify::spec_addresses(senders_eth_addresses@),
                operators@,
            ),
        decreases n - ind,
    {
        let ghost addrs_cur = crate::verify::spec_addresses(senders_eth_addresses@);
        let ghost ops_cur = operators@;
        let ghost record = signers@.skip(ind as int).first();
        proof {
            assert(record == signers@[ind as int]);
            assert(signers@.skip(ind as int).drop_first() =~= signers@.skip(ind + 1));
        }
        let signer = &signers[ind];
        let signer_data = match crate::state::SenderAccount::try_from_slice(&signer.data) {
            Ok(sd) => sd,
            Err(e) => {
                proof {
                    assert(spec_collect_sender_step(
                        program_id@,
                        reward_manager_key@,
                        record,
                        addrs_cur,
                        ops_cur,
                    ) == Err::<(Seq<Seq<u8>>, Set<Seq<u8>>), AudiusProgramError>(e));
                }
                return Err(e);
            },
        };
        if !signer_data.is_initialized() {
            proof {
                assert(spec_collect_sender_step(
                    program_id@,
                    reward_manager_key@,
                    record,
                    addrs_cur,
                    ops_cur,
                ) == Err::<(Seq<Seq<u8>>, Set<Seq<u8>>), AudiusProgramError>(
                    AudiusProgramError::UninitializedAccount,
                ));
            }
            return Err(AudiusProgramError::UninitializedAccount);
        }
        if !solana_key_eq(&signer.owner, program_id) {
            proof {
                assert(spec_collect_sender_step(
                    program_id@,
                    reward_manager_key@,
                    record,
                    addrs_cur,
                    ops_cur,
                ) == Err::<(Seq<Seq<u8>>, Set<Seq<u8>>), AudiusProgramError>(
                    AudiusProgramError::IncorrectProgramId,
                ));
            }
            return Err(AudiusProgramError::IncorrectProgramId);
        }
        let seed = sender_seed(&signer_data.eth_address);
        let generated_sender_key = match get_address_pair(program_id, reward_manager_key, seed) {
            Ok(pair) => pair,
            Err(e) => {
                proof {
                    assert(spec_collect_sender_step(
                        program_id@,
                        reward_manager_key@,
                        record,
                        addrs_cur,
                        ops_cur,
                    ) == Err::<(Seq<Seq<u8>>, Set<Seq<u8>>), AudiusProgramError>(e));
                }
                return Err(e);
            },
        };
        if !solana_key_eq(&generated_sender_key.derive.address, &signer.key) {
            proof {
                assert(spec_collect_sender_step(
                    program_id@,
                    reward_manager_key@,
                    record,
                    addrs_cur,
                    ops_cur,
                ) == Err::<(Seq<Seq<u8>>, Set<Seq<u8>>), AudiusProgramError>(
                    AudiusProgramError::InvalidSeeds,
                ));
            }
            return Err(AudiusProgramError::InvalidSeeds);
        }
        if crate::verify::contains_address(&senders_eth_addresses, &signer_data.eth_address) {
            proof {
                assert(spec_collect_sender_step(
                    program_id@,
                    reward_manager_key@,
                    record,
                    addrs_cur,
                    ops_cur,
                ) == Err::<(Seq<Seq<u8>>, Set<Seq<u8>>), AudiusProgramError>(
                    AudiusProgramError::RepeatedSenders,
                ));
            }
            return Err(AudiusProgramError::RepeatedSenders);
        }
        if !operators.insert(signer_data.operator) {
            proof {
                assert(spec_collect_sender_step(
                    program_id@,
                    reward_manager_key@,
                    record,
                    addrs_cur,
                    ops_cur,
                ) == Err::<(Seq<Seq<u8>>, Set<Seq<u8>>), AudiusProgramError>(
                    AudiusProgramError::OperatorCollision,
                ));
            }
            return Err(AudiusProgramError::OperatorCollision);
        }
        senders_eth_addresses.push(signer_data.eth_address);
        proof {
            assert(crate::verify::spec_addresses(senders_eth_addresses@) =~= addrs_cur.push(
                signer_data.eth_address@,
            ));
            assert(spec_collect_sender_step(
                program_id@,
                reward_manager_key@,
                record,
                addrs_cur,
                ops_cur,
            ) == Ok::<(Seq<Seq<u8>>, Set<Seq<u8>>), AudiusProgramError>((
                crate::verify::spec_addresses(senders_eth_addresses@),
                operators@,
            )));
        }
        ind += 1;
    }
    proof {
        assert(signers@.skip(n as int) =~= Seq::<AccountRecord>::empty());
    }
    Ok((senders_eth_addresses, operators))
}

/// One instruction of the ambient batch that accompanies an authorization
/// request: the id of the program that produced it and its raw data.
#[derive(Debug)]
pub struct AmbientInstruction {
    pub program_id: SolanaKey,
    pub data: Vec<u8>,
}

/// Offset of the recovered 20-byte identity inside a signature proof blob.
pub const ETH_ADDRESS_OFFSET: usize = 12;

/// Offset of the signed payload inside a signature proof blob:
/// 12 bytes metadata, 20 bytes identity and a 65-byte signature precede it.
pub const MESSAGE_DATA_OFFSET: usize = 97;

/// The identity a signature proof blob records as recovered signer.
pub open spec fn spec_proof_signer(data: Seq<u8>) -> Seq<u8> {
    data.subrange(12, 32)
}

/// The exact payload a signature proof blob records as signed.
pub open spec fn spec_proof_payload(data: Seq<u8>) -> Seq<u8> {
    data.skip(97)
}

/// The data of those instructions in a batch that the signature-recovery
/// program produced, in order.
pub open spec fn spec_secp_datas(instructions: Seq<AmbientInstruction>, secp_program: Seq<u8>) -> Seq<
    Seq<u8>,
>
    decreases instructions.len(),
{
    if instructions.len() == 0 {
        Seq::empty()
    } else if instructions.last().program_id@ == secp_program {
        spec_secp_datas(instructions.drop_last(), secp_program).push(instructions.last().data@)
    } else {
        spec_secp_datas(instructions.drop_last(), secp_program)
    }
}

/// Extract from the ambient batch the data of every instruction produced
/// by the signature-recovery program, and require that exactly the
/// declared number of them is present.
pub fn get_secp_instructions(
    instructions: &Vec<AmbientInstruction>,
    necessary_instructions_count: usize,
    secp_program: &SolanaKey,
) -> (r: Result<Vec<Vec<u8>>, AudiusProgramError>)
    ensures
        r is Ok <==> spec_secp_datas(instructions@, secp_program@).len()
            == necessary_instructions_count,
        r is Ok ==> r->Ok_0@.map_values(|d: Vec<u8>| d@) == spec_secp_datas(
            instructions@,
            secp_program@,
        ),
        r is Err ==> r->Err_0 == AudiusProgramError::Secp256InstructionMissing,
{
    let mut secp_instructions: Vec<Vec<u8>> = Vec::new();
    let n = instructions.len();
    let mut ind: usize = 0;
    while ind < n
        invariant
            ind <= n,
            n == instructions@.len(),
            secp_instructions@.map_values(|d: Vec<u8>| d@) == spec_secp_datas(
                instructions@.subrange(0, ind as int),
                secp_program@,
            ),
        decreases n - ind,
    {
        let instruction = &instructions[ind];
        if solana_key_eq(&instruction.program_id, secp_program) {
            secp_instructions.push(instruction.data.clone());
        }
        proof {
            assert(instructions@.subrange(0, ind + 1).drop_last() =~= instructions@.subrange(
                0,
                ind as int,
            ));
            assert(instructions@.subrange(0, ind + 1).last() == instructions@[ind as int]);
            assert(secp_instructions@.map_values(|d: Vec<u8>| d@) =~= spec_secp_datas(
                instructions@.subrange(0, ind + 1),
                secp_program@,
            ));
        }
        ind += 1;
    }
    proof {
        assert(instructions@.subrange(0, instructions@.len() as int) =~= instructions@);
    }
    if secp_instructions.len() != necessary_instructions_count {
        return Err(AudiusProgramError::Secp256InstructionMissing);
    }
    Ok(secp_instructions)
}

/// Read the recovered signer identity out of a signature proof blob.
pub fn get_signer_from_secp_instruction(secp_instruction_data: &Vec<u8>) -> (r: EthereumAddress)
    requires
        secp_instruction_data@.len() >= 32,
    ensures
        r@ == spec_proof_signer(secp_instruction_data@),
{
    let mut instruction_signer: EthereumAddress = [0u8; 20];
    let mut i: usize = 0;
    while i < 20
        invariant
            i <= 20,
            secp_instruction_data@.len() >= 32,
            instruction_signer@.len() == 20,
            forall|j: int| 0 <= j < i ==> instruction_signer@[j] == secp_instruction_data@[12 + j],
        decreases 20 - i,
    {
        instruction_signer[i] = secp_instruction_data[ETH_ADDRESS_OFFSET + i];
        i += 1;
    }
    proof {
        assert(instruction_signer@ =~= spec_proof_signer(secp_instruction_data@));
    }
    instruction_signer
}

/// Check that the payload a signature proof blob records as signed equals
/// the expected canonical message, byte for byte.
pub fn validate_eth_signature(expected_message: &Vec<u8>, secp_instruction_data: &Vec<u8>) -> (r:
    Result<(), AudiusProgramError>)
    requires
        secp_instruction_data@.len() >= 97,
    ensures
        r is Ok <==> spec_proof_payload(secp_instruction_data@) == expected_message@,
        r is Err ==> r->Err_0 == AudiusProgramError::SignatureVerificationFailed,
{
    let payload_len = secp_instruction_data.len() - MESSAGE_DATA_OFFSET;
    if payload_len != expected_message.len() {
        proof {
            assert(spec_proof_payload(secp_instruction_data@).len() != expected_message@.len());
        }
        return Err(AudiusProgramError::SignatureVerificationFailed);
    }
    let mut i: usize = 0;
    while i < payload_len
        invariant
            i <= payload_len,
            secp_instruction_data@.len() >= 97,
            payload_len == secp_instruction_data@.len() - 97,
            secp_instruction_data@.len() <= usize::MAX,
            payload_len == expected_message@.len(),
            forall|j: int| 0 <= j < i ==> secp_instruction_data@[97 + j] == expected_message@[j],
        decreases payload_len - i,
    {
        proof {
            assert(MESSAGE_DATA_OFFSET == 97);
        }
        if secp_instruction_data[MESSAGE_DATA_OFFSET + i] != expected_message[i] {
            proof {
                assert(spec_proof_payload(secp_instruction_data@)[i as int] != expected_message@[i as int]);
            }
            return Err(AudiusProgramError::SignatureVerificationFailed);
        }
        i += 1;
    }
    proof {
        assert(spec_proof_payload(secp_instruction_data@) =~= expected_message@);
    }
    Ok(())
}

} // verus!
