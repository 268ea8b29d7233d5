//! What a lookup tells the caller: a receipt, or the full transaction.

use vstd::prelude::*;
use crate::primitives::{BlockNumber, EthBlockId, PriorityOpId, TxHash};
use crate::status::{L1Status, L2Status};

verus! {

/// Receipt of a priority operation.
#[derive(Debug, Clone, Copy, PartialEq, Eq)]
pub struct L1Receipt {
    pub status: L1Status,
    /// Block of the base chain in which the operation was requested.
    pub eth_block: EthBlockId,
    /// Rollup block that holds the operation.
    pub rollup_block: Option<BlockNumber>,
    /// Sequence number of the operation.
    pub id: PriorityOpId,
}

/// Receipt of a rollup transaction.
#[derive(Debug, PartialEq, Eq)]
pub struct L2Receipt {
    pub tx_hash: TxHash,
    /// Rollup block that holds the transaction, once it is executed.
    pub rollup_block: Option<BlockNumber>,
    pub status: L2Status,
    /// Why the execution failed, if it did.
    pub fail_reason: Option<String>,
}

/// Receipt of a transaction of either origin.
///
/// The two shapes share no field but `rollup_block` and `status`: a receipt
/// written without a tag is still told apart by `eth_block` and `id` on one
/// side and `tx_hash` on the other.
#[derive(Debug, PartialEq, Eq)]
pub enum Receipt {
    L1(L1Receipt),
    L2(L2Receipt),
}

/// A transaction of either origin, in the shape of a rollup transaction.
#[derive(Debug, PartialEq, Eq)]
pub struct Transaction {
    pub tx_hash: TxHash,
    /// Rollup block that holds the transaction, once it is executed.
    pub block_number: Option<BlockNumber>,
    /// What the transaction does.
    pub op: serde_json::Value,
    pub status: L2Status,
    /// Why the execution failed, if it did.
    pub fail_reason: Option<String>,
    pub created_at: chrono::NaiveDateTime,
}

/// A transaction and the base-chain signature that came with it, if any,
/// as `0x` and lower-case hexadecimal digits.
#[derive(Debug, PartialEq, Eq)]
pub struct TxData {
    pub tx: Transaction,
    pub eth_signature: Option<String>,
}

/// A `TxData` with the signature as the characters it is made of.
pub struct TxDataView {
    pub tx: Transaction,
    pub eth_signature: Option<Seq<char>>,
}

impl View for TxData {
    type V = TxDataView;

    open spec fn view(&self) -> TxDataView {
        TxDataView {
            tx: self.tx,
            eth_signature: match self.eth_signature {
                Some(text) => Some(text@),
                None => None,
            },
        }
    }
}

impl L1Receipt {
    /// A priority operation with a receipt is in a rollup block.
    pub open spec fn well_formed(self) -> bool {
        self.rollup_block is Some
    }
}

impl L2Receipt {
    /// A transaction has a rollup block exactly when it left the queue.
    pub open spec fn well_formed(self) -> bool {
        self.rollup_block is Some <==> self.status.in_block()
    }
}

impl Receipt {
    /// The receipt inside is well formed.
    pub open spec fn well_formed(self) -> bool {
        match self {
            Receipt::L1(receipt) => receipt.well_formed(),
            Receipt::L2(receipt) => receipt.well_formed(),
        }
    }
}

impl Transaction {
    /// A transaction has a rollup block exactly when it left the queue.
    pub open spec fn well_formed(self) -> bool {
        self.block_number is Some <==> self.status.in_block()
    }
}

} // verus!
