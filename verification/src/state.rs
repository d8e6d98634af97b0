//! Persistent registry state: the reward manager and its sender accounts.

use vstd::prelude::*;

use crate::error::AudiusProgramError;
use crate::{push_eth_address, push_key, EthereumAddress, SolanaKey};

verus! {

/// Serialized size of a `RewardManager` record in bytes.
pub const REWARD_MANAGER_LEN: usize = 66;

/// Serialized size of a `SenderAccount` record in bytes.
pub const SENDER_ACCOUNT_LEN: usize = 73;

/// The singleton registry record: quorum threshold, manager authority and
/// the token account the registry authorizes transfers from.
#[derive(Debug)]
pub struct RewardManager {
    /// Lifecycle tag: zero until the registry is initialized.
    pub version: u8,
    /// The token account holding the funds this registry controls.
    pub token_account: SolanaKey,
    /// The sole authority permitted to add and remove senders.
    pub manager: SolanaKey,
    /// Quorum threshold, set at creation.
    pub min_votes: u8,
}

/// One registered attester: its identity, the operator it acts for, and a
/// back-reference to the owning registry.
#[derive(Debug)]
pub struct SenderAccount {
    /// Lifecycle tag: zero until the record is written.
    pub version: u8,
    /// The registry this sender belongs to.
    pub reward_manager: SolanaKey,
    /// The attester identity recovered from its signatures.
    pub eth_address: EthereumAddress,
    /// The operator the attester acts on behalf of.
    pub operator: EthereumAddress,
}

impl RewardManager {
    /// Whether the record has been initialized.
    pub open spec fn spec_is_initialized(&self) -> bool {
        self.version != 0
    }

    /// The canonical byte layout of the record: version, token account,
    /// manager, quorum threshold, each field fixed width, in order.
    pub open spec fn spec_serialize(&self) -> Seq<u8> {
        seq![self.version] + self.token_account@ + self.manager@ + seq![self.min_votes]
    }

    /// Build an initialized registry record.
    pub fn new(token_account: SolanaKey, manager: SolanaKey, min_votes: u8) -> (r: RewardManager)
        ensures
            r.version == 1,
            r.token_account == token_account,
            r.manager == manager,
            r.min_votes == min_votes,
    {
        RewardManager { version: 1, token_account, manager, min_votes }
    }

    /// Whether the record has been initialized.
    pub fn is_initialized(&self) -> (r: bool)
        ensures
            r == self.spec_is_initialized(),
    {
        self.version != 0
    }

    /// Serialize the record into its canonical byte layout.
    pub fn serialize(&self) -> (r: Vec<u8>)
        ensures
            r@ == self.spec_serialize(),
            r@.len() == REWARD_MANAGER_LEN,
    {
        let mut out: Vec<u8> = Vec::new();
        out.push(self.version);
        push_key(&mut out, &self.token_account);
        push_key(&mut out, &self.manager);
        out.push(self.min_votes);
        proof {
            assert(out@ =~= self.spec_serialize());
        }
        out
    }

    /// Decode a registry record from account data, requiring the exact
    /// canonical length.
    pub fn try_from_slice(data: &Vec<u8>) -> (r: Result<RewardManager, AudiusProgramError>)
        ensures
            r is Ok <==> data@.len() == REWARD_MANAGER_LEN,
            r is Ok ==> r->Ok_0.version == data@[0],
            r is Ok ==> r->Ok_0.token_account@ == data@.subrange(1, 33),
            r is Ok ==> r->Ok_0.manager@ == data@.subrange(33, 65),
            r is Ok ==> r->Ok_0.min_votes == data@[65],
            r is Err ==> r->Err_0 == AudiusProgramError::InvalidAccountData,
    {
        if data.len() != REWARD_MANAGER_LEN {
            return Err(AudiusProgramError::InvalidAccountData);
        }
        let version = data[0];
        let token_account = read_key(data, 1);
        let manager = read_key(data, 33);
        let min_votes = data[65];
        Ok(RewardManager { version, token_account, manager, min_votes })
    }
}

impl SenderAccount {
    /// Whether the record has been initialized.
    pub open spec fn spec_is_initialized(&self) -> bool {
        self.version != 0
    }

    /// The canonical byte layout of the record: version, owning registry,
    /// attester identity, operator identity, each field fixed width, in
    /// order.
    pub open spec fn spec_serialize(&self) -> Seq<u8> {
        seq![self.version] + self.reward_manager@ + self.eth_address@ + self.operator@
    }

    /// Build an initialized sender record.
    pub fn new(reward_manager: SolanaKey, eth_address: EthereumAddress, operator: EthereumAddress) -> (r:
        SenderAccount)
        ensures
            r.version == 1,
            r.reward_manager == reward_manager,
            r.eth_address == eth_address,
            r.operator == operator,
    {
        SenderAccount { version: 1, reward_manager, eth_address, operator }
    }

    /// Whether the record has been initialized.
    pub fn is_initialized(&self) -> (r: bool)
        ensures
            r == self.spec_is_initialized(),
    {
        self.version != 0
    }

    /// Serialize the record into its canonical byte layout.
    pub fn serialize(&self) -> (r: Vec<u8>)
        ensures
            r@ == self.spec_serialize(),
            r@.len() == SENDER_ACCOUNT_LEN,
    {
        let mut out: Vec<u8> = Vec::new();
        out.push(self.version);
        push_key(&mut out, &self.reward_manager);
        push_eth_address(&mut out, &self.eth_address);
        push_eth_address(&mut out, &self.operator);
        proof {
            assert(out@ =~= self.spec_serialize());
        }
        out
    }

    /// Decode a sender record from account data, requiring the exact
    /// canonical length.
    pub fn try_from_slice(data: &Vec<u8>) -> (r: Result<SenderAccount, AudiusProgramError>)
        ensures
            r is Ok <==> data@.len() == SENDER_ACCOUNT_LEN,
            r is Ok ==> r->Ok_0.version == data@[0],
            r is Ok ==> r->Ok_0.reward_manager@ == data@.subrange(1, 33),
            r is Ok ==> r->Ok_0.eth_address@ == data@.subrange(33, 53),
            r is Ok ==> r->Ok_0.operator@ == data@.subrange(53, 73),
            r is Err ==> r->Err_0 == AudiusProgramError::InvalidAccountData,
    {
        if data.len() != SENDER_ACCOUNT_LEN {
            return Err(AudiusProgramError::InvalidAccountData);
        }
        let version = data[0];
        let reward_manager = read_key(data, 1);
        let eth_address = read_eth_address(data, 33);
        let operator = read_eth_address(data, 53);
        Ok(SenderAccount { version, reward_manager, eth_address, operator })
    }
}

/// Read a 32-byte account address out of a byte string.
pub(crate) fn read_key(data: &Vec<u8>, offset: usize) -> (r: SolanaKey)
    requires
        offset + 32 <= data@.len(),
    ensures
        r@ == data@.subrange(offset as int, offset + 32),
{
    let data_len = data.len();
    let mut out: SolanaKey = [0u8; 32];
    let mut i: usize = 0;
    while i < 32
        invariant
            i <= 32,
            offset + 32 <= data@.len(),
            data@.len() == data_len,
            out@.len() == 32,
            forall|j: int| 0 <= j < i ==> out@[j] == data@[offset + j],
        decreases 32 - i,
    {
        out[i] = data[offset + i];
        i += 1;
    }
    proof {
        assert(out@ =~= data@.subrange(offset as int, offset + 32));
    }
    out
}

/// Read a 20-byte identity out of a byte string.
pub(crate) fn read_eth_address(data: &Vec<u8>, offset: usize) -> (r: EthereumAddress)
    requires
        offset + 20 <= data@.len(),
    ensures
        r@ == data@.subrange(offset as int, offset + 20),
{
    let data_len = data.len();
    let mut out: EthereumAddress = [0u8; 20];
    let mut i: usize = 0;
    while i < 20
        invariant
            i <= 20,
            offset + 20 <= data@.len(),
            data@.len() == data_len,
            out@.len() == 20,
            forall|j: int| 0 <= j < i ==> out@[j] == data@[offset + j],
        decreases 20 - i,
    {
        out[i] = data[offset + i];
        i += 1;
    }
    proof {
        assert(out@ =~= data@.subrange(offset as int, offset + 20));
    }
    out
}

} // verus!
