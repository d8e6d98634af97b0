//! Canonical byte strings that attesters sign.
//!
//! The verifier and every signer agree on the exact bytes of each message,
//! so a signature is bound to one transfer (or one registry change) and to
//! nothing else.

use vstd::prelude::*;

use crate::{push_bytes, push_eth_address, push_key, EthereumAddress, SolanaKey};

verus! {

/// The separator byte between message segments: `b"_"`.
pub const MESSAGE_SEPARATOR: u8 = 95;

/// A transfer intent: recipient, amount and the application-supplied
/// transfer id, the terms every attester signs.
#[derive(Debug)]
pub struct Transfer {
    /// The identity the funds are for.
    pub eth_recipient: EthereumAddress,
    /// The amount to move, in base units.
    pub amount: u64,
    /// Application-supplied transfer id bytes.
    pub id: Vec<u8>,
}

/// The message the designated oracle signs for a transfer: recipient,
/// amount in little-endian bytes and id, separated by `b"_"` and without
/// any trailing oracle identity.
pub open spec fn spec_bot_oracle_message(eth_recipient: Seq<u8>, amount: u64, id: Seq<u8>) -> Seq<
    u8,
> {
    eth_recipient + seq![MESSAGE_SEPARATOR] + vstd::bytes::spec_u64_to_le_bytes(amount)
        + seq![MESSAGE_SEPARATOR] + id
}

/// The message every ordinary sender signs for a transfer: the oracle
/// message followed by a separator and the oracle's identity.
pub open spec fn spec_senders_message(
    eth_recipient: Seq<u8>,
    amount: u64,
    id: Seq<u8>,
    bot_oracle: Seq<u8>,
) -> Seq<u8> {
    spec_bot_oracle_message(eth_recipient, amount, id) + seq![MESSAGE_SEPARATOR] + bot_oracle
}

/// The message signed to approve adding a sender: the registry identity
/// followed by the new sender's identity.
pub open spec fn spec_add_sender_message(reward_manager: Seq<u8>, new_sender: Seq<u8>) -> Seq<u8> {
    reward_manager + new_sender
}

/// Build the oracle's transfer message.
pub fn bot_oracle_message(transfer: &Transfer) -> (r: Vec<u8>)
    ensures
        r@ == spec_bot_oracle_message(transfer.eth_recipient@, transfer.amount, transfer.id@),
{
    let mut out: Vec<u8> = Vec::new();
    push_eth_address(&mut out, &transfer.eth_recipient);
    out.push(MESSAGE_SEPARATOR);
    let amount_bytes = vstd::bytes::u64_to_le_bytes(transfer.amount);
    push_bytes(&mut out, &amount_bytes);
    out.push(MESSAGE_SEPARATOR);
    push_bytes(&mut out, &transfer.id);
    proof {
        assert(out@ =~= spec_bot_oracle_message(
            transfer.eth_recipient@,
            transfer.amount,
            transfer.id@,
        ));
    }
    out
}

/// Build the ordinary senders' transfer message.
pub fn senders_message(transfer: &Transfer, bot_oracle: &EthereumAddress) -> (r: Vec<u8>)
    ensures
        r@ == spec_senders_message(
            transfer.eth_recipient@,
            transfer.amount,
            transfer.id@,
            bot_oracle@,
        ),
{
    let mut out = bot_oracle_message(transfer);
    out.push(MESSAGE_SEPARATOR);
    push_eth_address(&mut out, bot_oracle);
    proof {
        assert(out@ =~= spec_senders_message(
            transfer.eth_recipient@,
            transfer.amount,
            transfer.id@,
            bot_oracle@,
        ));
    }
    out
}

/// Build the add-sender approval message.
pub fn add_sender_message(reward_manager: &SolanaKey, new_sender: &EthereumAddress) -> (r: Vec<u8>)
    ensures
        r@ == spec_add_sender_message(reward_manager@, new_sender@),
{
    let mut out: Vec<u8> = Vec::new();
    push_key(&mut out, reward_manager);
    push_eth_address(&mut out, new_sender);
    proof {
        assert(out@ =~= spec_add_sender_message(reward_manager@, new_sender@));
    }
    out
}

/// For one and the same transfer, the senders' message and the oracle's
/// message are distinct byte strings: the senders' message carries the
/// oracle identity as a strictly longer suffix. A sender signature can
/// therefore never stand in for the oracle's, nor the oracle's for a
/// sender's.
pub proof fn lemma_transfer_messages_differ(
    eth_recipient: Seq<u8>,
    amount: u64,
    id: Seq<u8>,
    bot_oracle: Seq<u8>,
)
    ensures
        spec_senders_message(eth_recipient, amount, id, bot_oracle) != spec_bot_oracle_message(
            eth_recipient,
            amount,
            id,
        ),
{
    let oracle_msg = spec_bot_oracle_message(eth_recipient, amount, id);
    let senders_msg = spec_senders_message(eth_recipient, amount, id, bot_oracle);
    assert(senders_msg.len() == oracle_msg.len() + 1 + bot_oracle.len());
}

} // verus!
