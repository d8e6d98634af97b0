//! Reward-manager quorum verification library.
//!
//! Authorizes value transfers only when a quorum of registered senders,
//! each tied to a unique operator, plus one designated oracle, have each
//! produced a valid signature over the exact transfer terms.

use vstd::prelude::*;

pub mod error;
pub mod instruction;
pub mod messages;
pub mod processor;
pub mod state;
pub mod utils;
pub mod verify;

verus! {

/// Compressed Ethereum public-key-derived identity handle.
pub type EthereumAddress = [u8; 20];

/// Solana account address, held as its raw 32 bytes.
pub type SolanaKey = [u8; 32];

/// Byte-for-byte equality of two attester identities.
pub fn eth_address_eq(a: &EthereumAddress, b: &EthereumAddress) -> (r: bool)
    ensures
        r <==> a@ == b@,
{
    let mut i: usize = 0;
    while i < 20
        invariant
            i <= 20,
            forall|j: int| 0 <= j < i ==> a@[j] == b@[j],
        decreases 20 - i,
    {
        if a[i] != b[i] {
            return false;
        }
        i += 1;
    }
    proof {
        assert(a@ =~= b@);
    }
    true
}

/// Byte-for-byte equality of two account addresses.
pub fn solana_key_eq(a: &SolanaKey, b: &SolanaKey) -> (r: bool)
    ensures
        r <==> a@ == b@,
{
    let mut i: usize = 0;
    while i < 32
        invariant
            i <= 32,
            forall|j: int| 0 <= j < i ==> a@[j] == b@[j],
        decreases 32 - i,
    {
        if a[i] != b[i] {
            return false;
        }
        i += 1;
    }
    proof {
        assert(a@ =~= b@);
    }
    true
}


/// Append a 32-byte account address to a byte string.
pub(crate) fn push_key(out: &mut Vec<u8>, key: &SolanaKey)
    ensures
        final(out)@ == old(out)@ + key@,
{
    let mut i: usize = 0;
    while i < 32
        invariant
            i <= 32,
            out@ == old(out)@ + key@.subrange(0, i as int),
        decreases 32 - i,
    {
        out.push(key[i]);
        proof {
            assert(out@ =~= old(out)@ + key@.subrange(0, i + 1));
        }
        i += 1;
    }
    proof {
        assert(key@.subrange(0, 32) =~= key@);
    }
}

/// Append a 20-byte identity to a byte string.
pub(crate) fn push_eth_address(out: &mut Vec<u8>, address: &EthereumAddress)
    ensures
        final(out)@ == old(out)@ + address@,
{
    let mut i: usize = 0;
    while i < 20
        invariant
            i <= 20,
            out@ == old(out)@ + address@.subrange(0, i as int),
        decreases 20 - i,
    {
        out.push(address[i]);
        proof {
            assert(out@ =~= old(out)@ + address@.subrange(0, i + 1));
        }
        i += 1;
    }
    proof {
        assert(address@.subrange(0, 20) =~= address@);
    }
}

/// Append a whole byte string to another.
pub(crate) fn push_bytes(out: &mut Vec<u8>, bytes: &Vec<u8>)
    ensures
        final(out)@ == old(out)@ + bytes@,
{
    let n = bytes.len();
    let mut i: usize = 0;
    while i < n
        invariant
            i <= n,
            n == bytes@.len(),
            out@ == old(out)@ + bytes@.subrange(0, i as int),
        decreases n - i,
    {
        out.push(bytes[i]);
        proof {
            assert(out@ =~= old(out)@ + bytes@.subrange(0, i + 1));
        }
        i += 1;
    }
    proof {
        assert(bytes@.subrange(0, n as int) =~= bytes@);
    }
}

} // verus!
