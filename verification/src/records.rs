//! The facts that storage holds about a transaction.
//!
//! Records are handed to the library as storage returned them. Each is a
//! plain value: in contracts a record stands for itself. The payload of an
//! operation and the time of its creation are carried through unread.

use vstd::prelude::*;
use crate::primitives::{BlockNumber, EthBlockId, PriorityOpId};
use crate::signature::EthSignData;

verus! {

/// A JSON document of `serde_json`. The library moves payloads of this type
/// from records to results and never looks inside.
#[verifier::external_type_specification]
#[verifier::external_body]
pub struct ExValue(serde_json::Value);

/// A date and time of `chrono`, read as UTC. The library moves creation
/// times of this type from records to results and never looks inside.
#[verifier::external_type_specification]
#[verifier::external_body]
pub struct ExNaiveDateTime(chrono::NaiveDateTime);

/// An executed priority operation: one that started on the base chain and
/// is part of a rollup block.
#[derive(Debug, PartialEq, Eq)]
pub struct PriorityOperationRecord {
    /// Block of the base chain in which the operation was requested.
    pub eth_block: EthBlockId,
    /// Rollup block that holds the operation.
    pub rollup_block: BlockNumber,
    /// Sequence number of the operation.
    pub priority_op_id: PriorityOpId,
    /// What the operation does.
    pub payload: serde_json::Value,
    pub created_at: chrono::NaiveDateTime,
}

/// An executed rollup transaction.
#[derive(Debug, PartialEq, Eq)]
pub struct ExecutedTxRecord {
    /// Rollup block that holds the transaction.
    pub rollup_block: BlockNumber,
    /// Whether the execution succeeded.
    pub success: bool,
    /// Whether storage has seen the block verified.
    pub verified: bool,
    /// Why the execution failed, if it did.
    pub fail_reason: Option<String>,
    /// What the transaction does.
    pub payload: serde_json::Value,
    /// Base-chain signature that came with the transaction.
    pub eth_sign_data: Option<EthSignData>,
    pub created_at: chrono::NaiveDateTime,
}

/// A rollup transaction that waits in the pending pool.
#[derive(Debug, PartialEq, Eq)]
pub struct PendingTxRecord {
    /// What the transaction does.
    pub payload: serde_json::Value,
    /// Base-chain signature that came with the transaction.
    pub eth_sign_data: Option<EthSignData>,
    pub created_at: chrono::NaiveDateTime,
}

/// What an aggregated operation does with the blocks it covers.
#[derive(Debug, Clone, Copy, PartialEq, Eq, Structural)]
pub enum AggregatedActionType {
    CommitBlocks,
    CreateProofBlocks,
    PublishProofBlocksOnchain,
    ExecuteBlocks,
}

/// One action on a range of rollup blocks, sent to the base chain as a
/// whole.
#[derive(Debug, Clone, Copy, PartialEq, Eq)]
pub struct AggregatedOperationFact {
    pub action_type: AggregatedActionType,
    pub from_block: BlockNumber,
    pub to_block: BlockNumber,
    /// Whether the base chain has confirmed the action.
    pub confirmed: bool,
}

impl ExecutedTxRecord {
    /// A failure has a reason and a success has none.
    pub open spec fn well_formed(self) -> bool {
        self.fail_reason is Some <==> !self.success
    }
}

} // verus!
