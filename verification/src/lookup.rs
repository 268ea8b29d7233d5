//! Lookups as state machines.
//!
//! A lookup is a value that says which read of storage it waits for. The
//! caller makes that read and advances the lookup with the answer; the
//! lookup then either waits for the next read or is done. It asks at most
//! three times, and a failed read ends it at once.

use vstd::prelude::*;
use crate::api::ApiTransactionData;
use crate::model::{
    spec_is_block_finalized, spec_l1_receipt, spec_l1_tx_data, spec_l2_receipt, spec_l2_tx_data,
};
use crate::primitives::TxHash;
use crate::records::{ExecutedTxRecord, PriorityOperationRecord};
use crate::results::{Receipt, TxData, TxDataView};
use crate::storage::{LookupError, Sources, StorageAnswer, StorageQuery};

verus! {

/// A lookup of a receipt that waits for an answer from storage.
#[derive(Debug, PartialEq, Eq)]
pub enum ReceiptLookup {
    /// Waits for the priority operation with hash `hash`.
    PriorityOp { hash: TxHash },
    /// Has the priority operation and waits for the finality of its block.
    L1Finality { operation: PriorityOperationRecord },
    /// Found no priority operation and waits for the executed rollup
    /// transaction with hash `hash`.
    ExecutedTx { hash: TxHash },
    /// Found nothing executed and waits to hear whether the pending pool
    /// holds `hash`.
    PendingPool { hash: TxHash },
}

/// A lookup of a receipt after an answer: waiting again, or done.
#[derive(Debug, PartialEq, Eq)]
pub enum ReceiptStep {
    /// The lookup waits for the answer to its next question.
    Ask(ReceiptLookup),
    /// The lookup is over. `Ok(None)` says that storage knows no such
    /// transaction, which is no error.
    Done(Result<Option<Receipt>, LookupError>),
}

/// The L2 receipt, if any, as a receipt of either origin.
pub open spec fn spec_l2_as_receipt(receipt: Option<crate::results::L2Receipt>) -> Option<
    Receipt,
> {
    match receipt {
        Some(r) => Some(Receipt::L2(r)),
        None => None,
    }
}

impl ReceiptLookup {
    /// The lookup for `hash` before anything was asked.
    pub open spec fn spec_begin(hash: TxHash) -> ReceiptLookup {
        ReceiptLookup::PriorityOp { hash }
    }

    /// The question that the lookup waits to have answered.
    pub open spec fn spec_query(self) -> StorageQuery {
        match self {
            ReceiptLookup::PriorityOp { hash } => StorageQuery::FindPriorityOpByHash {
                eth_hash: hash,
            },
            ReceiptLookup::L1Finality { operation } => StorageQuery::spec_finality_of(
                operation.rollup_block,
            ),
            ReceiptLookup::ExecutedTx { hash } => StorageQuery::FindExecutedTxByHash {
                tx_hash: hash,
            },
            ReceiptLookup::PendingPool { hash } => StorageQuery::PendingPoolContains {
                tx_hash: hash,
            },
        }
    }

    /// The most questions that the lookup may still ask, the one it waits
    /// on included.
    pub open spec fn remaining(self) -> nat {
        match self {
            ReceiptLookup::PriorityOp { .. } => 3,
            ReceiptLookup::ExecutedTx { .. } => 2,
            ReceiptLookup::L1Finality { .. } => 1,
            ReceiptLookup::PendingPool { .. } => 1,
        }
    }

    /// The lookup after `answer`.
    ///
    /// A failure ends the lookup with that failure. A priority operation
    /// leads to the finality of its block and then to an L1 receipt. Without
    /// one, an executed rollup transaction gives an L2 receipt at once;
    /// without that either, the pending pool decides between a queued
    /// receipt and none. An answer to another question than the one asked
    /// ends the lookup with `UnexpectedAnswer`.
    pub open spec fn spec_advance(self, answer: StorageAnswer) -> ReceiptStep {
        match (self, answer) {
            (_, StorageAnswer::Failed(error)) => ReceiptStep::Done(
                Err(LookupError::Storage(error)),
            ),
            (
                ReceiptLookup::PriorityOp { hash },
                StorageAnswer::PriorityOp(Some(record)),
            ) => ReceiptStep::Ask(ReceiptLookup::L1Finality { operation: record }),
            (ReceiptLookup::PriorityOp { hash }, StorageAnswer::PriorityOp(None)) => {
                ReceiptStep::Ask(ReceiptLookup::ExecutedTx { hash })
            },
            (
                ReceiptLookup::L1Finality { operation },
                StorageAnswer::AggregatedOperation(fact),
            ) => ReceiptStep::Done(
                Ok(Some(Receipt::L1(spec_l1_receipt(operation, spec_is_block_finalized(fact))))),
            ),
            (
                ReceiptLookup::ExecutedTx { hash },
                StorageAnswer::ExecutedTx(Some(record)),
            ) => ReceiptStep::Done(
                Ok(spec_l2_as_receipt(spec_l2_receipt(hash, Some(record), false))),
            ),
            (ReceiptLookup::ExecutedTx { hash }, StorageAnswer::ExecutedTx(None)) => {
                ReceiptStep::Ask(ReceiptLookup::PendingPool { hash })
            },
            (
                ReceiptLookup::PendingPool { hash },
                StorageAnswer::PoolContains(in_pool),
            ) => ReceiptStep::Done(Ok(spec_l2_as_receipt(spec_l2_receipt(hash, None, in_pool)))),
            _ => ReceiptStep::Done(Err(LookupError::UnexpectedAnswer)),
        }
    }

    /// Begins the lookup for `hash`.
    pub fn begin(hash: TxHash) -> (lookup: ReceiptLookup)
        ensures
            lookup == Self::spec_begin(hash),
    {
        ReceiptLookup::PriorityOp { hash }
    }

    /// The question that the lookup waits to have answered.
    pub fn query(&self) -> (query: StorageQuery)
        ensures
            query == self.spec_query(),
    {
        match self {
            ReceiptLookup::PriorityOp { hash } => StorageQuery::FindPriorityOpByHash {
                eth_hash: *hash,
            },
            ReceiptLookup::L1Finality { operation } => StorageQuery::finality_of(
                operation.rollup_block,
            ),
            ReceiptLookup::ExecutedTx { hash } => StorageQuery::FindExecutedTxByHash {
                tx_hash: *hash,
            },
            ReceiptLookup::PendingPool { hash } => StorageQuery::PendingPoolContains {
                tx_hash: *hash,
            },
        }
    }

    /// Advances the lookup with the answer to its question.
    pub fn advance(self, answer: StorageAnswer) -> (step: ReceiptStep)
        ensures
            step == self.spec_advance(answer),
            step matches ReceiptStep::Ask(next) ==> next.remaining() < self.remaining(),
            step matches ReceiptStep::Done(Ok(Some(receipt))) ==> receipt.well_formed(),
    {
        match answer {
            StorageAnswer::Failed(error) => ReceiptStep::Done(Err(LookupError::Storage(error))),
            StorageAnswer::PriorityOp(operation) => match self {
                ReceiptLookup::PriorityOp { hash } => match operation {
                    Some(record) => ReceiptStep::Ask(
                        ReceiptLookup::L1Finality { operation: record },
                    ),
                    None => ReceiptStep::Ask(ReceiptLookup::ExecutedTx { hash }),
                },
                _ => ReceiptStep::Done(Err(LookupError::UnexpectedAnswer)),
            },
            StorageAnswer::AggregatedOperation(fact) => match self {
                ReceiptLookup::L1Finality { operation } => {
                    let finalized = ApiTransactionData::is_block_finalized(fact);
                    let receipt = ApiTransactionData::get_l1_receipt(&operation, finalized);
                    ReceiptStep::Done(Ok(Some(Receipt::L1(receipt))))
                },
                _ => ReceiptStep::Done(Err(LookupError::UnexpectedAnswer)),
            },
            StorageAnswer::ExecutedTx(executed) => match self {
                ReceiptLookup::ExecutedTx { hash } => match executed {
                    Some(record) => {
                        match ApiTransactionData::get_l2_receipt(hash, Some(record), false) {
                            Some(receipt) => ReceiptStep::Done(Ok(Some(Receipt::L2(receipt)))),
                            None => ReceiptStep::Done(Ok(None)),
                        }
                    },
                    None => ReceiptStep::Ask(ReceiptLookup::PendingPool { hash }),
                },
                _ => ReceiptStep::Done(Err(LookupError::UnexpectedAnswer)),
            },
            StorageAnswer::PoolContains(in_pool) => match self {
                ReceiptLookup::PendingPool { hash } => {
                    match ApiTransactionData::get_l2_receipt(hash, None, in_pool) {
                        Some(receipt) => ReceiptStep::Done(Ok(Some(Receipt::L2(receipt)))),
                        None => ReceiptStep::Done(Ok(None)),
                    }
                },
                _ => ReceiptStep::Done(Err(LookupError::UnexpectedAnswer)),
            },
            StorageAnswer::PendingTx(_) => ReceiptStep::Done(Err(LookupError::UnexpectedAnswer)),
        }
    }
}

/// How a lookup of a receipt ends when every question it asks is answered
/// from the fixed tables of `sources`.
pub open spec fn run_receipt(sources: Sources, lookup: ReceiptLookup) -> Result<
    Option<Receipt>,
    LookupError,
>
    decreases lookup.remaining(),
{
    match lookup.spec_advance(sources.answer(lookup.spec_query())) {
        ReceiptStep::Done(outcome) => outcome,
        ReceiptStep::Ask(next) => if next.remaining() < lookup.remaining() {
            run_receipt(sources, next)
        } else {
            Err(LookupError::UnexpectedAnswer)
        },
    }
}

/// A lookup of a full transaction that waits for an answer from storage.
#[derive(Debug, PartialEq, Eq)]
pub enum DataLookup {
    /// Waits for the priority operation with hash `hash`.
    PriorityOp { hash: TxHash },
    /// Has the priority operation and waits for the finality of its block.
    L1Finality { hash: TxHash, operation: PriorityOperationRecord },
    /// Found no priority operation and waits for the executed rollup
    /// transaction with hash `hash`.
    ExecutedTx { hash: TxHash },
    /// Has an executed rollup transaction that succeeded and waits for the
    /// finality of its block.
    L2Finality { hash: TxHash, executed: ExecutedTxRecord },
    /// Found nothing executed and waits for the transaction with hash
    /// `hash` in the pending pool.
    PendingTx { hash: TxHash },
}

/// A lookup of a full transaction after an answer: waiting again, or done.
#[derive(Debug, PartialEq, Eq)]
pub enum DataStep {
    /// The lookup waits for the answer to its next question.
    Ask(DataLookup),
    /// The lookup is over. `Ok(None)` says that storage knows no such
    /// transaction, which is no error.
    Done(Result<Option<TxData>, LookupError>),
}

/// A `DataStep` with the transaction, if there is one, by its view.
pub enum DataStepView {
    Ask(DataLookup),
    Done(Result<Option<TxDataView>, LookupError>),
}

impl View for DataStep {
    type V = DataStepView;

    open spec fn view(&self) -> DataStepView {
        match *self {
            DataStep::Ask(lookup) => DataStepView::Ask(lookup),
            DataStep::Done(Ok(Some(data))) => DataStepView::Done(Ok(Some(data@))),
            DataStep::Done(Ok(None)) => DataStepView::Done(Ok(None)),
            DataStep::Done(Err(error)) => DataStepView::Done(Err(error)),
        }
    }
}

impl DataLookup {
    /// The lookup for `hash` before anything was asked.
    pub open spec fn spec_begin(hash: TxHash) -> DataLookup {
        DataLookup::PriorityOp { hash }
    }

    /// The question that the lookup waits to have answered.
    pub open spec fn spec_query(self) -> StorageQuery {
        match self {
            DataLookup::PriorityOp { hash } => StorageQuery::FindPriorityOpByHash {
                eth_hash: hash,
            },
            DataLookup::L1Finality { hash, operation } => StorageQuery::spec_finality_of(
                operation.rollup_block,
            ),
            DataLookup::ExecutedTx { hash } => StorageQuery::FindExecutedTxByHash {
                tx_hash: hash,
            },
            DataLookup::L2Finality { hash, executed } => StorageQuery::spec_finality_of(
                executed.rollup_block,
            ),
            DataLookup::PendingTx { hash } => StorageQuery::FindPendingTxByHash {
                tx_hash: hash,
            },
        }
    }

    /// The most questions that the lookup may still ask, the one it waits
    /// on included.
    pub open spec fn remaining(self) -> nat {
        match self {
            DataLookup::PriorityOp { .. } => 3,
            DataLookup::ExecutedTx { .. } => 2,
            DataLookup::L1Finality { .. } => 1,
            DataLookup::L2Finality { .. } => 1,
            DataLookup::PendingTx { .. } => 1,
        }
    }

    /// The lookup after `answer`.
    ///
    /// A failure ends the lookup with that failure. A priority operation
    /// leads to the finality of its block and then to the operation as a
    /// transaction. Without one, an executed rollup transaction that failed
    /// gives a rejected transaction at once, and one that succeeded leads to
    /// the finality of its block first. With nothing executed, the pending
    /// pool decides between a queued transaction and none. An answer to
    /// another question than the one asked ends the lookup with
    /// `UnexpectedAnswer`.
    pub open spec fn spec_advance(self, answer: StorageAnswer) -> DataStepView {
        match (self, answer) {
            (_, StorageAnswer::Failed(error)) => DataStepView::Done(
                Err(LookupError::Storage(error)),
            ),
            (
                DataLookup::PriorityOp { hash },
                StorageAnswer::PriorityOp(Some(record)),
            ) => DataStepView::Ask(DataLookup::L1Finality { hash, operation: record }),
            (DataLookup::PriorityOp { hash }, StorageAnswer::PriorityOp(None)) => {
                DataStepView::Ask(DataLookup::ExecutedTx { hash })
            },
            (
                DataLookup::L1Finality { hash, operation },
                StorageAnswer::AggregatedOperation(fact),
            ) => DataStepView::Done(
                Ok(Some(spec_l1_tx_data(hash, operation, spec_is_block_finalized(fact)))),
            ),
            (DataLookup::ExecutedTx { hash }, StorageAnswer::ExecutedTx(Some(record))) => {
                if record.success {
                    DataStepView::Ask(DataLookup::L2Finality { hash, executed: record })
                } else {
                    DataStepView::Done(Ok(spec_l2_tx_data(hash, Some(record), false, None)))
                }
            },
            (DataLookup::ExecutedTx { hash }, StorageAnswer::ExecutedTx(None)) => {
                DataStepView::Ask(DataLookup::PendingTx { hash })
            },
            (
                DataLookup::L2Finality { hash, executed },
                StorageAnswer::AggregatedOperation(fact),
            ) => DataStepView::Done(
                Ok(spec_l2_tx_data(hash, Some(executed), spec_is_block_finalized(fact), None)),
            ),
            (DataLookup::PendingTx { hash }, StorageAnswer::PendingTx(pending)) => {
                DataStepView::Done(Ok(spec_l2_tx_data(hash, None, false, pending)))
            },
            _ => DataStepView::Done(Err(LookupError::UnexpectedAnswer)),
        }
    }

    /// Begins the lookup for `hash`.
    pub fn begin(hash: TxHash) -> (lookup: DataLookup)
        ensures
            lookup == Self::spec_begin(hash),
    {
        DataLookup::PriorityOp { hash }
    }

    /// The question that the lookup waits to have answered.
    pub fn query(&self) -> (query: StorageQuery)
        ensures
            query == self.spec_query(),
    {
        match self {
            DataLookup::PriorityOp { hash } => StorageQuery::FindPriorityOpByHash {
                eth_hash: *hash,
            },
            DataLookup::L1Finality { hash, operation } => StorageQuery::finality_of(
                operation.rollup_block,
            ),
            DataLookup::ExecutedTx { hash } => StorageQuery::FindExecutedTxByHash {
                tx_hash: *hash,
            },
            DataLookup::L2Finality { hash, executed } => StorageQuery::finality_of(
                executed.rollup_block,
            ),
            DataLookup::PendingTx { hash } => StorageQuery::FindPendingTxByHash {
                tx_hash: *hash,
            },
        }
    }

    /// Advances the lookup with the answer to its question.
    pub fn advance(self, answer: StorageAnswer) -> (step: DataStep)
        ensures
            step@ == self.spec_advance(answer),
            step matches DataStep::Ask(next) ==> next.remaining() < self.remaining(),
            step matches DataStep::Done(Ok(Some(data))) ==> data.tx.well_formed(),
    {
        match answer {
            StorageAnswer::Failed(error) => DataStep::Done(Err(LookupError::Storage(error))),
            StorageAnswer::PriorityOp(operation) => match self {
                DataLookup::PriorityOp { hash } => match operation {
                    Some(record) => DataStep::Ask(
                        DataLookup::L1Finality { hash, operation: record },
                    ),
                    None => DataStep::Ask(DataLookup::ExecutedTx { hash }),
                },
                _ => DataStep::Done(Err(LookupError::UnexpectedAnswer)),
            },
            StorageAnswer::AggregatedOperation(fact) => match self {
                DataLookup::L1Finality { hash, operation } => {
                    let finalized = ApiTransactionData::is_block_finalized(fact);
                    DataStep::Done(
                        Ok(Some(ApiTransactionData::get_l1_tx_data(hash, operation, finalized))),
                    )
                },
                DataLookup::L2Finality { hash, executed } => {
                    let finalized = ApiTransactionData::is_block_finalized(fact);
                    DataStep::Done(
                        Ok(
                            ApiTransactionData::get_l2_tx_data(
                                hash,
                                Some(executed),
                                finalized,
                                None,
                            ),
                        ),
                    )
                },
                _ => DataStep::Done(Err(LookupError::UnexpectedAnswer)),
            },
            StorageAnswer::ExecutedTx(executed) => match self {
                DataLookup::ExecutedTx { hash } => match executed {
                    Some(record) => {
                        if record.success {
                            DataStep::Ask(DataLookup::L2Finality { hash, executed: record })
                        } else {
                            DataStep::Done(
                                Ok(
                                    ApiTransactionData::get_l2_tx_data(
                                        hash,
                                        Some(record),
                                        false,
                                        None,
                                    ),
                                ),
                            )
                        }
                    },
                    None => DataStep::Ask(DataLookup::PendingTx { hash }),
                },
                _ => DataStep::Done(Err(LookupError::UnexpectedAnswer)),
            },
            StorageAnswer::PendingTx(pending) => match self {
                DataLookup::PendingTx { hash } => DataStep::Done(
                    Ok(ApiTransactionData::get_l2_tx_data(hash, None, false, pending)),
                ),
                _ => DataStep::Done(Err(LookupError::UnexpectedAnswer)),
            },
            StorageAnswer::PoolContains(_) => DataStep::Done(Err(LookupError::UnexpectedAnswer)),
        }
    }
}

/// How a lookup of a full transaction ends when every question it asks is
/// answered from the fixed tables of `sources`.
pub open spec fn run_data(sources: Sources, lookup: DataLookup) -> Result<
    Option<TxDataView>,
    LookupError,
>
    decreases lookup.remaining(),
{
    match lookup.spec_advance(sources.answer(lookup.spec_query())) {
        DataStepView::Done(outcome) => outcome,
        DataStepView::Ask(next) => if next.remaining() < lookup.remaining() {
            run_data(sources, next)
        } else {
            Err(LookupError::UnexpectedAnswer)
        },
    }
}

} // verus!
