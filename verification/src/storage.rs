//! The questions a lookup puts to storage, and the answers it takes.
//!
//! The library asks and the caller answers: a [`StorageQuery`] names one
//! read, and the caller hands back a [`StorageAnswer`] with what the read
//! found, or with the failure of the read. [`Sources`] is the model of a
//! storage that answers every read from fixed tables; the laws of the crate
//! are stated over it.

use vstd::prelude::*;
use crate::primitives::{BlockNumber, TxHash};
use crate::records::{
    AggregatedActionType, AggregatedOperationFact, ExecutedTxRecord, PendingTxRecord,
    PriorityOperationRecord,
};

verus! {

/// One read of storage.
#[derive(Debug, Clone, Copy, PartialEq, Eq)]
pub enum StorageQuery {
    /// The executed priority operation whose base-chain hash is `eth_hash`.
    FindPriorityOpByHash { eth_hash: TxHash },
    /// The aggregated operation of kind `action_type` that covers rollup
    /// block `block_number`.
    FindAggregatedOperation { block_number: BlockNumber, action_type: AggregatedActionType },
    /// The executed rollup transaction with hash `tx_hash`.
    FindExecutedTxByHash { tx_hash: TxHash },
    /// Whether the pending pool holds a transaction with hash `tx_hash`.
    PendingPoolContains { tx_hash: TxHash },
    /// The transaction with hash `tx_hash` in the pending pool.
    FindPendingTxByHash { tx_hash: TxHash },
}

/// A failure of storage, in the words of the storage layer.
#[derive(Debug, PartialEq, Eq)]
pub struct StorageError {
    pub message: String,
}

/// What a read of storage came back with.
#[derive(Debug, PartialEq, Eq)]
pub enum StorageAnswer {
    PriorityOp(Option<PriorityOperationRecord>),
    AggregatedOperation(Option<AggregatedOperationFact>),
    ExecutedTx(Option<ExecutedTxRecord>),
    PoolContains(bool),
    PendingTx(Option<PendingTxRecord>),
    /// The read failed.
    Failed(StorageError),
}

/// Why a lookup ended without a result.
#[derive(Debug, PartialEq, Eq)]
pub enum LookupError {
    /// A read of storage failed; the failure is passed on as it came.
    Storage(StorageError),
    /// The lookup was handed the answer to a question it had not asked.
    UnexpectedAnswer,
}

impl StorageQuery {
    /// The read that tells whether rollup block `block_number` is final: the
    /// one for the operation that executes the block.
    pub open spec fn spec_finality_of(block_number: BlockNumber) -> StorageQuery {
        StorageQuery::FindAggregatedOperation {
            block_number,
            action_type: AggregatedActionType::ExecuteBlocks,
        }
    }

    /// The read that tells whether rollup block `block_number` is final.
    pub fn finality_of(block_number: BlockNumber) -> (query: StorageQuery)
        ensures
            query == Self::spec_finality_of(block_number),
    {
        StorageQuery::FindAggregatedOperation {
            block_number,
            action_type: AggregatedActionType::ExecuteBlocks,
        }
    }
}

impl StorageAnswer {
    /// Whether the answer is of the kind that `query` asks for. A failure
    /// answers every query.
    pub open spec fn answers(self, query: StorageQuery) -> bool {
        match (query, self) {
            (_, StorageAnswer::Failed(_)) => true,
            (StorageQuery::FindPriorityOpByHash { .. }, StorageAnswer::PriorityOp(_)) => true,
            (
                StorageQuery::FindAggregatedOperation { .. },
                StorageAnswer::AggregatedOperation(_),
            ) => true,
            (StorageQuery::FindExecutedTxByHash { .. }, StorageAnswer::ExecutedTx(_)) => true,
            (StorageQuery::PendingPoolContains { .. }, StorageAnswer::PoolContains(_)) => true,
            (StorageQuery::FindPendingTxByHash { .. }, StorageAnswer::PendingTx(_)) => true,
            _ => false,
        }
    }
}

/// A storage whose tables are fixed: every read succeeds and is answered
/// from them.
pub struct Sources {
    /// Executed priority operations by base-chain hash.
    pub priority_ops: Map<TxHash, PriorityOperationRecord>,
    /// Executed rollup transactions by hash.
    pub executed: Map<TxHash, ExecutedTxRecord>,
    /// The pending pool by hash.
    pub pending: Map<TxHash, PendingTxRecord>,
    /// Aggregated operations by kind and covered rollup block.
    pub aggregated: Map<(AggregatedActionType, BlockNumber), AggregatedOperationFact>,
}

impl Sources {
    /// What storage answers to `query`.
    pub open spec fn answer(self, query: StorageQuery) -> StorageAnswer {
        match query {
            StorageQuery::FindPriorityOpByHash { eth_hash } => StorageAnswer::PriorityOp(
                self.priority_ops.get(eth_hash),
            ),
            StorageQuery::FindAggregatedOperation {
                block_number,
                action_type,
            } => StorageAnswer::AggregatedOperation(
                self.aggregated.get((action_type, block_number)),
            ),
            StorageQuery::FindExecutedTxByHash { tx_hash } => StorageAnswer::ExecutedTx(
                self.executed.get(tx_hash),
            ),
            StorageQuery::PendingPoolContains { tx_hash } => StorageAnswer::PoolContains(
                self.pending.contains_key(tx_hash),
            ),
            StorageQuery::FindPendingTxByHash { tx_hash } => StorageAnswer::PendingTx(
                self.pending.get(tx_hash),
            ),
        }
    }

    /// The operation that executes rollup block `block_number`, if storage
    /// has one.
    pub open spec fn execution_of(self, block_number: BlockNumber) -> Option<
        AggregatedOperationFact,
    > {
        self.aggregated.get((AggregatedActionType::ExecuteBlocks, block_number))
    }

    /// Whether the base chain has confirmed the execution of rollup block
    /// `block_number`.
    pub open spec fn finalized(self, block_number: BlockNumber) -> bool {
        self.execution_of(block_number) matches Some(operation) && operation.confirmed
    }

    /// Whether no table has anything under `hash`.
    pub open spec fn unknown(self, hash: TxHash) -> bool {
        &&& !self.priority_ops.contains_key(hash)
        &&& !self.executed.contains_key(hash)
        &&& !self.pending.contains_key(hash)
    }
}

} // verus!
