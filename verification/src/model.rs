//! What the library computes, as functions of the facts alone.
//!
//! Every executable function of the crate is specified by one of these.
//! A status is never stored: it is a function of the record and of the
//! finality of the record's block at the time of the lookup.

use vstd::prelude::*;
use vstd::std_specs::convert::FromSpec;
use vstd::utf8::encode_utf8;
use crate::hex_codec::{spec_hex_decode, spec_hex_encode, DecodeError};
use crate::primitives::TxHash;
use crate::records::{
    AggregatedOperationFact, ExecutedTxRecord, PendingTxRecord, PriorityOperationRecord,
};
use crate::results::{L1Receipt, L2Receipt, Receipt, Transaction, TxDataView};
use crate::signature::EthSignData;
use crate::status::{L1Status, L2Status};
use crate::storage::Sources;

verus! {

/// Whether the text starts with the two bytes of `0x`.
pub open spec fn has_hex_prefix(text: Seq<u8>) -> bool {
    text.len() >= 2 && text[0] == 0x30 && text[1] == 0x78
}

/// The text without a leading `0x`, if it has one. Only one is taken off.
pub open spec fn strip_hex_prefix(text: Seq<u8>) -> Seq<u8> {
    if has_hex_prefix(text) {
        text.skip(2)
    } else {
        text
    }
}

/// The bytes that a hash written as text stands for: the UTF-8 bytes of the
/// text, less a leading `0x`, read as hexadecimal digits.
pub open spec fn spec_decode_hash(tx_hash: Seq<char>) -> Result<Seq<u8>, DecodeError> {
    spec_hex_decode(strip_hex_prefix(encode_utf8(tx_hash)))
}

/// Whether a block is final, given the operation that executes it, if
/// storage has one. Without such an operation the block is not final yet.
pub open spec fn spec_is_block_finalized(operation: Option<AggregatedOperationFact>) -> bool {
    operation matches Some(fact) && fact.confirmed
}

/// The receipt of a priority operation whose block is final or not.
pub open spec fn spec_l1_receipt(record: PriorityOperationRecord, finalized: bool) -> L1Receipt {
    L1Receipt {
        status: L1Status::spec_of_finality(finalized),
        eth_block: record.eth_block,
        rollup_block: Some(record.rollup_block),
        id: record.priority_op_id,
    }
}

/// The receipt of a rollup transaction, given what storage has executed
/// under its hash and whether the pending pool holds it.
///
/// An executed record decides alone, by its own `success` and `verified`.
/// The pool counts only where nothing was executed.
pub open spec fn spec_l2_receipt(
    tx_hash: TxHash,
    executed: Option<ExecutedTxRecord>,
    in_pool: bool,
) -> Option<L2Receipt> {
    match executed {
        Some(record) => Some(
            L2Receipt {
                tx_hash,
                rollup_block: Some(record.rollup_block),
                status: L2Status::spec_of_execution(record.success, record.verified),
                fail_reason: record.fail_reason,
            },
        ),
        None => if in_pool {
            Some(
                L2Receipt {
                    tx_hash,
                    rollup_block: None,
                    status: L2Status::Queued,
                    fail_reason: None,
                },
            )
        } else {
            None
        },
    }
}

/// A base-chain signature as text: `0x` and the bytes of the signature in
/// lower-case hexadecimal digits.
pub open spec fn spec_sign_bytes(eth_sign_data: EthSignData) -> Seq<char> {
    seq!['0', 'x'] + spec_hex_encode(eth_sign_data.signature.bytes())
}

/// The signature that came with a transaction, as text.
pub open spec fn spec_eth_signature(eth_sign_data: Option<EthSignData>) -> Option<Seq<char>> {
    match eth_sign_data {
        Some(data) => Some(spec_sign_bytes(data)),
        None => None,
    }
}

/// A priority operation in the shape of a rollup transaction. It cannot fail
/// and carries no base-chain signature.
pub open spec fn spec_l1_tx_data(
    eth_hash: TxHash,
    record: PriorityOperationRecord,
    finalized: bool,
) -> TxDataView {
    TxDataView {
        tx: Transaction {
            tx_hash: eth_hash,
            block_number: Some(record.rollup_block),
            op: record.payload,
            status: L2Status::from_spec(L1Status::spec_of_finality(finalized)),
            fail_reason: None,
            created_at: record.created_at,
        },
        eth_signature: None,
    }
}

/// A rollup transaction, given what storage has executed under its hash,
/// whether the block of that record is final, and what the pending pool
/// holds under the hash.
///
/// An executed record decides alone: a failed one is rejected whatever
/// `finalized` says. The pool counts only where nothing was executed.
pub open spec fn spec_l2_tx_data(
    tx_hash: TxHash,
    executed: Option<ExecutedTxRecord>,
    finalized: bool,
    pending: Option<PendingTxRecord>,
) -> Option<TxDataView> {
    match executed {
        Some(record) => Some(
            TxDataView {
                tx: Transaction {
                    tx_hash,
                    block_number: Some(record.rollup_block),
                    op: record.payload,
                    status: L2Status::spec_of_execution(record.success, finalized),
                    fail_reason: record.fail_reason,
                    created_at: record.created_at,
                },
                eth_signature: spec_eth_signature(record.eth_sign_data),
            },
        ),
        None => match pending {
            Some(record) => Some(
                TxDataView {
                    tx: Transaction {
                        tx_hash,
                        block_number: None,
                        op: record.payload,
                        status: L2Status::Queued,
                        fail_reason: None,
                        created_at: record.created_at,
                    },
                    eth_signature: spec_eth_signature(record.eth_sign_data),
                },
            ),
            None => None,
        },
    }
}

/// The receipt of the transaction with hash `hash` in a storage with fixed
/// tables. A priority operation comes before a rollup transaction, an
/// executed rollup transaction before a pending one.
pub open spec fn spec_tx_status(sources: Sources, hash: TxHash) -> Option<Receipt> {
    match sources.priority_ops.get(hash) {
        Some(record) => Some(
            Receipt::L1(spec_l1_receipt(record, sources.finalized(record.rollup_block))),
        ),
        None => match spec_l2_receipt(
            hash,
            sources.executed.get(hash),
            sources.pending.contains_key(hash),
        ) {
            Some(receipt) => Some(Receipt::L2(receipt)),
            None => None,
        },
    }
}

/// The transaction with hash `hash` in a storage with fixed tables, in the
/// same order of precedence as for receipts.
pub open spec fn spec_tx_data(sources: Sources, hash: TxHash) -> Option<TxDataView> {
    match sources.priority_ops.get(hash) {
        Some(record) => Some(
            spec_l1_tx_data(hash, record, sources.finalized(record.rollup_block)),
        ),
        None => spec_l2_tx_data(
            hash,
            sources.executed.get(hash),
            match sources.executed.get(hash) {
                Some(record) => sources.finalized(record.rollup_block),
                None => false,
            },
            sources.pending.get(hash),
        ),
    }
}

} // verus!
