//! Numbers and hashes that identify blocks, operations and transactions.

use vstd::prelude::*;

verus! {

/// Number of a rollup block.
#[derive(Debug, Clone, Copy, PartialEq, Eq, Structural)]
pub struct BlockNumber(pub u32);

/// Number of a block of the base chain.
#[derive(Debug, Clone, Copy, PartialEq, Eq, Structural)]
pub struct EthBlockId(pub u64);

/// Sequence number that the base chain gave to a priority operation.
#[derive(Debug, Clone, Copy, PartialEq, Eq, Structural)]
pub struct PriorityOpId(pub u64);

/// Number of bytes in a transaction hash.
pub const TX_HASH_LEN: usize = 32;

/// Hash of a transaction: exactly 32 bytes.
///
/// The same bytes serve as the hash of a base-chain transaction and as the
/// hash of a rollup transaction; which of the two a given hash is cannot be
/// told from the bytes.
#[derive(Debug, Clone, Copy, PartialEq, Eq)]
pub struct TxHash {
    pub data: [u8; 32],
}

impl View for TxHash {
    type V = Seq<u8>;

    open spec fn view(&self) -> Seq<u8> {
        self.data@
    }
}

impl TxHash {
    /// Two hashes with the same bytes are the same hash.
    pub proof fn lemma_view_injective(a: TxHash, b: TxHash)
        requires
            a@ == b@,
        ensures
            a == b,
    {
        assert(a.data =~= b.data);
    }

    /// Reads a hash from a slice. There is a hash exactly when the slice
    /// has 32 bytes, and the hash then holds those bytes.
    pub fn from_slice(slice: &[u8]) -> (hash: Option<TxHash>)
        ensures
            hash is Some <==> slice@.len() == TX_HASH_LEN,
            hash matches Some(h) ==> h@ == slice@,
    {
        if slice.len() != TX_HASH_LEN {
            return None;
        }
        let mut data: [u8; 32] = [0u8; 32];
        let mut i: usize = 0;
        while i < TX_HASH_LEN
            invariant
                i <= TX_HASH_LEN,
                slice@.len() == TX_HASH_LEN,
                forall|j: int| 0 <= j < i ==> data@[j] == slice@[j],
            decreases TX_HASH_LEN - i,
        {
            data[i] = slice[i];
            i += 1;
        }
        assert(data@ =~= slice@);
        Some(TxHash { data })
    }

    /// The 32 bytes of the hash.
    pub fn as_bytes(&self) -> (bytes: &[u8])
        ensures
            bytes@ == self@,
    {
        self.data.as_slice()
    }
}

} // verus!
