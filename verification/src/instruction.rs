//! Authorization request shapes and their wire codec.

use vstd::prelude::*;

use crate::error::AudiusProgramError;
use crate::state::read_eth_address;
use crate::{push_eth_address, EthereumAddress};

verus! {

/// A request to the reward manager, decoded from instruction data: a
/// one-byte tag followed by the variant's fixed-width fields.
#[derive(Debug)]
pub enum Instructions {
    /// Create the registry with its quorum threshold.
    InitRewardManager { min_votes: u8 },
    /// Register a new sender under the given operator.
    CreateSender { eth_address: EthereumAddress, operator: EthereumAddress },
    /// Remove a sender, sweeping its balance to a refund target.
    DeleteSender,
}

/// Whether instruction data has the exact shape of some request: a known
/// tag and precisely the bytes its fields need.
pub open spec fn spec_instruction_shape_ok(data: Seq<u8>) -> bool {
    data.len() >= 1 && ((data[0] == 0 && data.len() == 2) || (data[0] == 1 && data.len() == 41) || (
    data[0] == 2 && data.len() == 1))
}

/// Decode a request from instruction data, refusing any trailing or
/// missing bytes.
pub fn decode_instruction(input: &Vec<u8>) -> (r: Result<Instructions, AudiusProgramError>)
    ensures
        r is Ok <==> spec_instruction_shape_ok(input@),
        r is Ok && input@[0] == 0 ==> (r->Ok_0 matches Instructions::InitRewardManager {
            min_votes,
        } && min_votes == input@[1]),
        r is Ok && input@[0] == 1 ==> (r->Ok_0 matches Instructions::CreateSender {
            eth_address,
            operator,
        } && eth_address@ == input@.subrange(1, 21) && operator@ == input@.subrange(21, 41)),
        r is Ok && input@[0] == 2 ==> r->Ok_0 is DeleteSender,
        r is Err ==> r->Err_0 == AudiusProgramError::InvalidAccountData,
{
    if input.len() == 0 {
        return Err(AudiusProgramError::InvalidAccountData);
    }
    let tag = input[0];
    if tag == 0 {
        if input.len() != 2 {
            return Err(AudiusProgramError::InvalidAccountData);
        }
        let min_votes = input[1];
        Ok(Instructions::InitRewardManager { min_votes })
    } else if tag == 1 {
        if input.len() != 41 {
            return Err(AudiusProgramError::InvalidAccountData);
        }
        let eth_address = read_eth_address(input, 1);
        let operator = read_eth_address(input, 21);
        Ok(Instructions::CreateSender { eth_address, operator })
    } else if tag == 2 {
        if input.len() != 1 {
            return Err(AudiusProgramError::InvalidAccountData);
        }
        Ok(Instructions::DeleteSender)
    } else {
        Err(AudiusProgramError::InvalidAccountData)
    }
}

/// The canonical bytes of a request.
pub open spec fn spec_encode_instruction(instruction: Instructions) -> Seq<u8> {
    match instruction {
        Instructions::InitRewardManager { min_votes } => seq![0u8, min_votes],
        Instructions::CreateSender { eth_address, operator } => seq![1u8] + eth_address@
            + operator@,
        Instructions::DeleteSender => seq![2u8],
    }
}

/// Encode a request into its canonical bytes.
pub fn encode_instruction(instruction: &Instructions) -> (r: Vec<u8>)
    ensures
        r@ == spec_encode_instruction(*instruction),
        spec_instruction_shape_ok(r@),
{
    let mut out: Vec<u8> = Vec::new();
    match instruction {
        Instructions::InitRewardManager { min_votes } => {
            out.push(0u8);
            out.push(*min_votes);
        },
        Instructions::CreateSender { eth_address, operator } => {
            out.push(1u8);
            push_eth_address(&mut out, eth_address);
            push_eth_address(&mut out, operator);
        },
        Instructions::DeleteSender => {
            out.push(2u8);
        },
    }
    proof {
        assert(out@ =~= spec_encode_instruction(*instruction));
    }
    out
}

} // verus!
