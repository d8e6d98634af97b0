//! Registry mutation decisions: initialization, adding and removing
//! senders, and the full-balance sweep on removal.

use vstd::prelude::*;

use crate::error::AudiusProgramError;
use crate::solana_key_eq;
use crate::state::{RewardManager, SenderAccount, REWARD_MANAGER_LEN, SENDER_ACCOUNT_LEN};
use crate::utils::{
    get_address_pair, get_base_address, program_address_of, sender_seed, spec_address_pair,
    spec_sender_seed, AddressPair,
};
use crate::{EthereumAddress, SolanaKey};

verus! {

/// Program state handler.
pub struct Processor;

/// The decision taken on an initialization request: the registry record
/// to persist, or the exact error.
pub open spec fn spec_process_init(
    program_id: SolanaKey,
    reward_manager_key: SolanaKey,
    reward_manager_data: Seq<u8>,
    token_account_key: SolanaKey,
    manager_key: SolanaKey,
    authority_key: SolanaKey,
    min_votes: u8,
) -> Result<RewardManager, AudiusProgramError> {
    if reward_manager_data.len() != REWARD_MANAGER_LEN {
        Err(AudiusProgramError::InvalidAccountData)
    } else if reward_manager_data[0] != 0 {
        Err(AudiusProgramError::AccountAlreadyInitialized)
    } else {
        match program_address_of(reward_manager_key@, program_id@) {
            None => Err(AudiusProgramError::InvalidSeeds),
            Some(base) => if base.0 != authority_key@ {
                Err(AudiusProgramError::InvalidAccountData)
            } else {
                Ok(
                    RewardManager {
                        version: 1,
                        token_account: token_account_key,
                        manager: manager_key,
                        min_votes,
                    },
                )
            },
        }
    }
}

/// The decision taken on an add-sender request: the sender record to
/// persist, or the exact error. The caller must hold the manager
/// authority and name the exact derived sender account; the created
/// record carries the declared operator.
pub open spec fn spec_process_create_sender(
    program_id: SolanaKey,
    reward_manager_key: SolanaKey,
    reward_manager_data: Seq<u8>,
    manager_account_key: SolanaKey,
    sender_account_key: SolanaKey,
    eth_address: EthereumAddress,
    operator: EthereumAddress,
) -> Result<SenderAccount, AudiusProgramError> {
    if reward_manager_data.len() != REWARD_MANAGER_LEN {
        Err(AudiusProgramError::InvalidAccountData)
    } else if reward_manager_data[0] == 0 {
        Err(AudiusProgramError::UninitializedAccount)
    } else if reward_manager_data.subrange(33, 65) != manager_account_key@ {
        Err(AudiusProgramError::IncorectManagerAccount)
    } else {
        match spec_address_pair(
            program_id@,
            reward_manager_key@,
            spec_sender_seed(eth_address@),
        ) {
            None => Err(AudiusProgramError::InvalidSeeds),
            Some(pair) => if sender_account_key@ != pair.2 {
                Err(AudiusProgramError::IncorectSenderAccount)
            } else {
                Ok(
                    SenderAccount {
                        version: 1,
                        reward_manager: reward_manager_key,
                        eth_address,
                        operator,
                    },
                )
            },
        }
    }
}

/// The decision taken on a delete-sender request: the swept balances
/// `(source, refund target)`, or the exact error.
pub open spec fn spec_process_delete_sender(
    reward_manager_key: SolanaKey,
    reward_manager_data: Seq<u8>,
    manager_account_key: SolanaKey,
    sender_data: Seq<u8>,
    sender_balance: u64,
    refunder_balance: u64,
) -> Result<(u64, u64), AudiusProgramError> {
    if sender_data.len() != SENDER_ACCOUNT_LEN {
        Err(AudiusProgramError::InvalidAccountData)
    } else if sender_data.subrange(1, 33) != reward_manager_key@ {
        Err(AudiusProgramError::IncorectRewardManager)
    } else if reward_manager_data.len() != REWARD_MANAGER_LEN {
        Err(AudiusProgramError::InvalidAccountData)
    } else if reward_manager_data.subrange(33, 65) != manager_account_key@ {
        Err(AudiusProgramError::IncorectManagerAccount)
    } else {
        Ok((0u64, (refunder_balance + sender_balance) as u64))
    }
}

impl Processor {
    /// Sweep the whole balance from a source account to a receiver: the
    /// receiver gains exactly the source's balance and the source is left
    /// at exactly zero.
    pub fn transfer_all(source_balance: u64, receiver_balance: u64) -> (r: (u64, u64))
        requires
            source_balance + receiver_balance <= u64::MAX,
        ensures
            r.0 == 0,
            r.1 == receiver_balance + source_balance,
    {
        (0, receiver_balance + source_balance)
    }

    /// Decide an initialization request: refuse a registry that is
    /// already initialized, and demand that the declared custody
    /// authority equals the program-derived base address; on success the
    /// persisted registry carries the given token account, manager and
    /// quorum threshold.
    pub fn process_init_instruction(
        program_id: &SolanaKey,
        reward_manager_key: &SolanaKey,
        reward_manager_data: &Vec<u8>,
        token_account_key: &SolanaKey,
        manager_key: &SolanaKey,
        authority_key: &SolanaKey,
        min_votes: u8,
    ) -> (r: Result<RewardManager, AudiusProgramError>)
        ensures
            r == spec_process_init(
                *program_id,
                *reward_manager_key,
                reward_manager_data@,
                *token_account_key,
                *manager_key,
                *authority_key,
                min_votes,
            ),
    {
        let reward_manager = RewardManager::try_from_slice(reward_manager_data)?;
        if reward_manager.is_initialized() {
            return Err(AudiusProgramError::AccountAlreadyInitialized);
        }
        let base = get_base_address(program_id, reward_manager_key)?;
        if !solana_key_eq(&base.address, authority_key) {
            return Err(AudiusProgramError::InvalidAccountData);
        }
        Ok(RewardManager::new(*token_account_key, *manager_key, min_votes))
    }

    /// Decide an add-sender request: only the registry's manager may add,
    /// the target account must equal the derivation from the attester
    /// identity, and the created sender carries the declared operator.
    pub fn process_create_sender(
        program_id: &SolanaKey,
        eth_address: EthereumAddress,
        operator: EthereumAddress,
        reward_manager_key: &SolanaKey,
        reward_manager_data: &Vec<u8>,
        manager_account_key: &SolanaKey,
        sender_account_key: &SolanaKey,
    ) -> (r: Result<(SenderAccount, AddressPair), AudiusProgramError>)
        ensures
            r is Ok <==> spec_process_create_sender(
                *program_id,
                *reward_manager_key,
                reward_manager_data@,
                *manager_account_key,
                *sender_account_key,
                eth_address,
                operator,
            ) is Ok,
            r is Ok ==> r->Ok_0.0 == spec_process_create_sender(
                *program_id,
                *reward_manager_key,
                reward_manager_data@,
                *manager_account_key,
                *sender_account_key,
                eth_address,
                operator,
            )->Ok_0,
            r is Ok ==> r->Ok_0.1.base.address@ == spec_address_pair(
                program_id@,
                reward_manager_key@,
                spec_sender_seed(eth_address@),
            )->Some_0.0,
            r is Ok ==> r->Ok_0.1.base.seed == spec_address_pair(
                program_id@,
                reward_manager_key@,
                spec_sender_seed(eth_address@),
            )->Some_0.1,
            r is Ok ==> r->Ok_0.1.derive.address@ == spec_address_pair(
                program_id@,
                reward_manager_key@,
                spec_sender_seed(eth_address@),
            )->Some_0.2,
            r is Ok ==> r->Ok_0.1.derive.seed@ == spec_address_pair(
                program_id@,
                reward_manager_key@,
                spec_sender_seed(eth_address@),
            )->Some_0.3,
            r is Err ==> r->Err_0 == spec_process_create_sender(
                *program_id,
                *reward_manager_key,
                reward_manager_data@,
                *manager_account_key,
                *sender_account_key,
                eth_address,
                operator,
            )->Err_0,
    {
        let reward_manager = RewardManager::try_from_slice(reward_manager_data)?;
        if !reward_manager.is_initialized() {
            return Err(AudiusProgramError::UninitializedAccount);
        }
        if !solana_key_eq(&reward_manager.manager, manager_account_key) {
            return Err(AudiusProgramError::IncorectManagerAccount);
        }
        let seed = sender_seed(&eth_address);
        let pair = get_address_pair(program_id, reward_manager_key, seed)?;
        if !solana_key_eq(sender_account_key, &pair.derive.address) {
            return Err(AudiusProgramError::IncorectSenderAccount);
        }
        let sender = SenderAccount::new(*reward_manager_key, eth_address, operator);
        Ok((sender, pair))
    }

    /// Decide a delete-sender request: the sender must reference the
    /// registry invoking deletion and the caller must hold the manager
    /// authority; on success the sender's whole balance is swept to the
    /// refund target and the sender is left at exactly zero.
    pub fn process_delete_sender(
        reward_manager_key: &SolanaKey,
        reward_manager_data: &Vec<u8>,
        manager_account_key: &SolanaKey,
        sender_data: &Vec<u8>,
        sender_balance: u64,
        refunder_balance: u64,
    ) -> (r: Result<(u64, u64), AudiusProgramError>)
        requires
            sender_balance + refunder_balance <= u64::MAX,
        ensures
            r == spec_process_delete_sender(
                *reward_manager_key,
                reward_manager_data@,
                *manager_account_key,
                sender_data@,
                sender_balance,
                refunder_balance,
            ),
    {
        let sender = SenderAccount::try_from_slice(sender_data)?;
        if !solana_key_eq(&sender.reward_manager, reward_manager_key) {
            return Err(AudiusProgramError::IncorectRewardManager);
        }
        let reward_manager = RewardManager::try_from_slice(reward_manager_data)?;
        if !solana_key_eq(&reward_manager.manager, manager_account_key) {
            return Err(AudiusProgramError::IncorectManagerAccount);
        }
        Ok(Self::transfer_all(sender_balance, refunder_balance))
    }
}

} // verus!
