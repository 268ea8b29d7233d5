use tx_resolver::api::{tx_data, tx_status, ApiTransactionData, HashError};
use tx_resolver::lookup::{DataLookup, DataStep, ReceiptLookup, ReceiptStep};
use tx_resolver::primitives::{BlockNumber, EthBlockId, PriorityOpId, TxHash};
use tx_resolver::records::{
    AggregatedActionType, AggregatedOperationFact, ExecutedTxRecord, PendingTxRecord,
    PriorityOperationRecord,
};
use tx_resolver::results::{L1Receipt, L2Receipt, Receipt, Transaction, TxData};
use tx_resolver::signature::{EIP1271Signature, EthSignData, TxEthSignature};
use tx_resolver::status::{L1Status, L2Status};
use tx_resolver::storage::{LookupError, StorageAnswer, StorageError, StorageQuery};

fn at(seconds: i64) -> chrono::NaiveDateTime {
    chrono::DateTime::from_timestamp(seconds, 0).unwrap().naive_utc()
}

fn payload(kind: &str) -> serde_json::Value {
    serde_json::Value::String(kind.to_string())
}

fn hash_of(byte: u8) -> TxHash {
    TxHash { data: [byte; 32] }
}

fn text_of(byte: u8) -> String {
    format!("0x{}", format!("{:02x}", byte).repeat(32))
}

/// A storage with fixed tables that remembers what it was asked.
struct Storage {
    priority_op: Option<(TxHash, BlockNumber)>,
    executed: Option<(TxHash, bool, bool)>,
    pending: Option<TxHash>,
    confirmed: Option<(BlockNumber, bool)>,
    fail_at: Option<usize>,
    asked: Vec<StorageQuery>,
}

impl Storage {
    fn empty() -> Storage {
        Storage {
            priority_op: None,
            executed: None,
            pending: None,
            confirmed: None,
            fail_at: None,
            asked: Vec::new(),
        }
    }

    fn priority_record(block: BlockNumber) -> PriorityOperationRecord {
        PriorityOperationRecord {
            eth_block: EthBlockId(5_000),
            rollup_block: block,
            priority_op_id: PriorityOpId(17),
            payload: payload("Deposit"),
            created_at: at(1_000),
        }
    }

    fn executed_record(success: bool, verified: bool) -> ExecutedTxRecord {
        ExecutedTxRecord {
            rollup_block: BlockNumber(55),
            success,
            verified,
            fail_reason: if success { None } else { Some("Nonce mismatch".to_string()) },
            payload: payload("Transfer"),
            eth_sign_data: Some(EthSignData {
                signature: TxEthSignature::EIP1271Signature(EIP1271Signature(vec![0xbe, 0xef])),
                message: vec![],
            }),
            created_at: at(2_000),
        }
    }

    fn pending_record() -> PendingTxRecord {
        PendingTxRecord { payload: payload("Withdraw"), eth_sign_data: None, created_at: at(3_000) }
    }

    fn answer(&mut self, query: StorageQuery) -> StorageAnswer {
        self.asked.push(query);
        if self.fail_at == Some(self.asked.len()) {
            return StorageAnswer::Failed(StorageError { message: "connection lost".to_string() });
        }
        match query {
            StorageQuery::FindPriorityOpByHash { eth_hash } => StorageAnswer::PriorityOp(
                self.priority_op
                    .filter(|(hash, _)| *hash == eth_hash)
                    .map(|(_, block)| Storage::priority_record(block)),
            ),
            StorageQuery::FindAggregatedOperation { block_number, action_type } => {
                StorageAnswer::AggregatedOperation(
                    self.confirmed
                        .filter(|(block, _)| {
                            *block == block_number
                                && action_type == AggregatedActionType::ExecuteBlocks
                        })
                        .map(|(block, confirmed)| AggregatedOperationFact {
                            action_type,
                            from_block: block,
                            to_block: block,
                            confirmed,
                        }),
                )
            }
            StorageQuery::FindExecutedTxByHash { tx_hash } => StorageAnswer::ExecutedTx(
                self.executed
                    .filter(|(hash, _, _)| *hash == tx_hash)
                    .map(|(_, success, verified)| Storage::executed_record(success, verified)),
            ),
            StorageQuery::PendingPoolContains { tx_hash } => {
                StorageAnswer::PoolContains(self.pending == Some(tx_hash))
            }
            StorageQuery::FindPendingTxByHash { tx_hash } => StorageAnswer::PendingTx(
                self.pending.filter(|hash| *hash == tx_hash).map(|_| Storage::pending_record()),
            ),
        }
    }

    fn receipt(&mut self, text: String) -> Result<Result<Option<Receipt>, LookupError>, HashError> {
        let mut lookup = tx_status(&ApiTransactionData::new(), text)?;
        loop {
            let answer = self.answer(lookup.query());
            match lookup.advance(answer) {
                ReceiptStep::Ask(next) => lookup = next,
                ReceiptStep::Done(outcome) => return Ok(outcome),
            }
        }
    }

    fn data(&mut self, text: String) -> Result<Result<Option<TxData>, LookupError>, HashError> {
        let mut lookup = tx_data(&ApiTransactionData::new(), text)?;
        loop {
            let answer = self.answer(lookup.query());
            match lookup.advance(answer) {
                DataStep::Ask(next) => lookup = next,
                DataStep::Done(outcome) => return Ok(outcome),
            }
        }
    }
}

fn finality_of(block: u32) -> StorageQuery {
    StorageQuery::FindAggregatedOperation {
        block_number: BlockNumber(block),
        action_type: AggregatedActionType::ExecuteBlocks,
    }
}

#[test]
fn an_unknown_hash_has_no_receipt_and_no_data() {
    let hash = hash_of(0x11);
    let mut storage = Storage::empty();
    // Other hashes are known; this one is not.
    storage.priority_op = Some((hash_of(0x22), BlockNumber(1)));
    storage.executed = Some((hash_of(0x33), true, true));
    storage.pending = Some(hash_of(0x44));
    assert_eq!(storage.receipt(text_of(0x11)), Ok(Ok(None)));
    assert_eq!(
        storage.asked,
        vec![
            StorageQuery::FindPriorityOpByHash { eth_hash: hash },
            StorageQuery::FindExecutedTxByHash { tx_hash: hash },
            StorageQuery::PendingPoolContains { tx_hash: hash },
        ]
    );
    storage.asked.clear();
    assert_eq!(storage.data(text_of(0x11)), Ok(Ok(None)));
    assert_eq!(
        storage.asked,
        vec![
            StorageQuery::FindPriorityOpByHash { eth_hash: hash },
            StorageQuery::FindExecutedTxByHash { tx_hash: hash },
            StorageQuery::FindPendingTxByHash { tx_hash: hash },
        ]
    );
}

#[test]
fn a_hash_of_another_length_asks_nothing_of_storage() {
    let mut storage = Storage::empty();
    for text in ["0x", "0x00", "abcd", &"ab".repeat(31), &"ab".repeat(33)] {
        assert_eq!(storage.receipt(text.to_string()), Err(HashError::InvalidLength));
        assert_eq!(storage.data(text.to_string()), Err(HashError::InvalidLength));
    }
    assert!(matches!(storage.receipt("xyz!".to_string()), Err(HashError::Decode(_))));
    assert!(matches!(storage.data("abc".to_string()), Err(HashError::Decode(_))));
    assert_eq!(storage.asked.len(), 0);
}

#[test]
fn a_pending_transaction_is_queued() {
    let hash = hash_of(0x55);
    let mut storage = Storage::empty();
    storage.pending = Some(hash);
    assert_eq!(
        storage.data(text_of(0x55)),
        Ok(Ok(Some(TxData {
            tx: Transaction {
                tx_hash: hash,
                block_number: None,
                op: payload("Withdraw"),
                status: L2Status::Queued,
                fail_reason: None,
                created_at: at(3_000),
            },
            eth_signature: None,
        })))
    );
    assert_eq!(
        storage.receipt(text_of(0x55)),
        Ok(Ok(Some(Receipt::L2(L2Receipt {
            tx_hash: hash,
            rollup_block: None,
            status: L2Status::Queued,
            fail_reason: None,
        }))))
    );
}

#[test]
fn a_successful_execution_is_committed_until_verified() {
    let hash = hash_of(0x66);
    let mut storage = Storage::empty();
    storage.executed = Some((hash, true, false));
    assert_eq!(
        storage.receipt(text_of(0x66)),
        Ok(Ok(Some(Receipt::L2(L2Receipt {
            tx_hash: hash,
            rollup_block: Some(BlockNumber(55)),
            status: L2Status::Committed,
            fail_reason: None,
        }))))
    );
    storage.executed = Some((hash, true, true));
    assert_eq!(
        storage.receipt(text_of(0x66)),
        Ok(Ok(Some(Receipt::L2(L2Receipt {
            tx_hash: hash,
            rollup_block: Some(BlockNumber(55)),
            status: L2Status::Finalized,
            fail_reason: None,
        }))))
    );
    // A receipt goes by the record alone.
    assert!(storage.asked.iter().all(|query| *query != finality_of(55)));
}

#[test]
fn the_data_of_a_successful_execution_goes_by_the_base_chain() {
    let hash = hash_of(0x67);
    let mut storage = Storage::empty();
    storage.executed = Some((hash, true, false));
    let expected = |status: L2Status| TxData {
        tx: Transaction {
            tx_hash: hash,
            block_number: Some(BlockNumber(55)),
            op: payload("Transfer"),
            status,
            fail_reason: None,
            created_at: at(2_000),
        },
        eth_signature: Some("0xbeef".to_string()),
    };
    assert_eq!(storage.data(text_of(0x67)), Ok(Ok(Some(expected(L2Status::Committed)))));
    storage.confirmed = Some((BlockNumber(55), false));
    assert_eq!(storage.data(text_of(0x67)), Ok(Ok(Some(expected(L2Status::Committed)))));
    storage.confirmed = Some((BlockNumber(55), true));
    storage.asked.clear();
    assert_eq!(storage.data(text_of(0x67)), Ok(Ok(Some(expected(L2Status::Finalized)))));
    assert_eq!(
        storage.asked,
        vec![
            StorageQuery::FindPriorityOpByHash { eth_hash: hash },
            StorageQuery::FindExecutedTxByHash { tx_hash: hash },
            finality_of(55),
        ]
    );
    // The confirmation of another block does not count.
    storage.confirmed = Some((BlockNumber(56), true));
    assert_eq!(storage.data(text_of(0x67)), Ok(Ok(Some(expected(L2Status::Committed)))));
}

#[test]
fn a_failed_execution_is_rejected() {
    let hash = hash_of(0x77);
    let mut storage = Storage::empty();
    storage.confirmed = Some((BlockNumber(55), true));
    for verified in [false, true] {
        storage.executed = Some((hash, false, verified));
        assert_eq!(
            storage.receipt(text_of(0x77)),
            Ok(Ok(Some(Receipt::L2(L2Receipt {
                tx_hash: hash,
                rollup_block: Some(BlockNumber(55)),
                status: L2Status::Rejected,
                fail_reason: Some("Nonce mismatch".to_string()),
            }))))
        );
        storage.asked.clear();
        assert_eq!(
            storage.data(text_of(0x77)),
            Ok(Ok(Some(TxData {
                tx: Transaction {
                    tx_hash: hash,
                    block_number: Some(BlockNumber(55)),
                    op: payload("Transfer"),
                    status: L2Status::Rejected,
                    fail_reason: Some("Nonce mismatch".to_string()),
                    created_at: at(2_000),
                },
                eth_signature: Some("0xbeef".to_string()),
            })))
        );
        // Finality has no say, so it is not asked for.
        assert_eq!(
            storage.asked,
            vec![
                StorageQuery::FindPriorityOpByHash { eth_hash: hash },
                StorageQuery::FindExecutedTxByHash { tx_hash: hash },
            ]
        );
    }
}

#[test]
fn a_priority_operation_is_committed_until_its_block_is_final() {
    let hash = hash_of(0x88);
    let mut storage = Storage::empty();
    storage.priority_op = Some((hash, BlockNumber(100)));
    storage.confirmed = Some((BlockNumber(100), false));
    let committed = storage.receipt(text_of(0x88));
    assert_eq!(
        committed,
        Ok(Ok(Some(Receipt::L1(L1Receipt {
            status: L1Status::Committed,
            eth_block: EthBlockId(5_000),
            rollup_block: Some(BlockNumber(100)),
            id: PriorityOpId(17),
        }))))
    );
    assert_eq!(
        storage.asked,
        vec![StorageQuery::FindPriorityOpByHash { eth_hash: hash }, finality_of(100)]
    );

    // The same lookup after the base chain has confirmed the block.
    storage.confirmed = Some((BlockNumber(100), true));
    let finalized = storage.receipt(text_of(0x88));
    assert_eq!(
        finalized,
        Ok(Ok(Some(Receipt::L1(L1Receipt {
            status: L1Status::Finalized,
            eth_block: EthBlockId(5_000),
            rollup_block: Some(BlockNumber(100)),
            id: PriorityOpId(17),
        }))))
    );

    // Without any record of the execution the block is not final.
    storage.confirmed = None;
    assert_eq!(storage.receipt(text_of(0x88)), committed);
}

#[test]
fn the_data_of_a_priority_operation() {
    let hash = hash_of(0x89);
    let mut storage = Storage::empty();
    storage.priority_op = Some((hash, BlockNumber(100)));
    // The same hash in the other tables changes nothing.
    storage.executed = Some((hash, false, false));
    storage.pending = Some(hash);
    let expected = |status: L2Status| TxData {
        tx: Transaction {
            tx_hash: hash,
            block_number: Some(BlockNumber(100)),
            op: payload("Deposit"),
            status,
            fail_reason: None,
            created_at: at(1_000),
        },
        eth_signature: None,
    };
    assert_eq!(storage.data(text_of(0x89)), Ok(Ok(Some(expected(L2Status::Committed)))));
    storage.confirmed = Some((BlockNumber(100), true));
    storage.asked.clear();
    assert_eq!(storage.data(text_of(0x89)), Ok(Ok(Some(expected(L2Status::Finalized)))));
    assert_eq!(
        storage.asked,
        vec![StorageQuery::FindPriorityOpByHash { eth_hash: hash }, finality_of(100)]
    );
}

#[test]
fn an_executed_record_comes_before_a_stale_pending_one() {
    let hash = hash_of(0x99);
    let mut storage = Storage::empty();
    storage.executed = Some((hash, true, true));
    storage.pending = Some(hash);
    assert_eq!(
        storage.receipt(text_of(0x99)),
        Ok(Ok(Some(Receipt::L2(L2Receipt {
            tx_hash: hash,
            rollup_block: Some(BlockNumber(55)),
            status: L2Status::Finalized,
            fail_reason: None,
        }))))
    );
    let data = storage.data(text_of(0x99)).unwrap().unwrap().unwrap();
    assert_eq!(data.tx.op, payload("Transfer"));
    assert_eq!(data.tx.block_number, Some(BlockNumber(55)));
    assert_eq!(data.tx.status, L2Status::Committed);
    assert_eq!(data.tx.created_at, at(2_000));
    // The pool was never asked.
    assert!(storage.asked.iter().all(|query| !matches!(
        query,
        StorageQuery::PendingPoolContains { .. } | StorageQuery::FindPendingTxByHash { .. }
    )));
}

#[test]
fn a_failure_of_storage_ends_the_lookup() {
    let hash = hash_of(0xaa);
    let lost = || LookupError::Storage(StorageError { message: "connection lost".to_string() });
    for fail_at in 1..=3usize {
        let mut storage = Storage::empty();
        storage.fail_at = Some(fail_at);
        assert_eq!(storage.receipt(text_of(0xaa)), Ok(Err(lost())));
        assert_eq!(storage.asked.len(), fail_at);
        storage.asked.clear();
        assert_eq!(storage.data(text_of(0xaa)), Ok(Err(lost())));
        assert_eq!(storage.asked.len(), fail_at);
    }
    // A failure to learn of finality is a failure too.
    let mut storage = Storage::empty();
    storage.priority_op = Some((hash, BlockNumber(9)));
    storage.fail_at = Some(2);
    assert_eq!(storage.receipt(text_of(0xaa)), Ok(Err(lost())));
    assert_eq!(
        storage.asked,
        vec![StorageQuery::FindPriorityOpByHash { eth_hash: hash }, finality_of(9)]
    );
    storage.asked.clear();
    assert_eq!(storage.data(text_of(0xaa)), Ok(Err(lost())));
    assert_eq!(storage.asked.len(), 2);
}

#[test]
fn an_answer_to_another_question_ends_the_lookup() {
    let hash = hash_of(0xbb);
    assert_eq!(
        ReceiptLookup::begin(hash).advance(StorageAnswer::PoolContains(true)),
        ReceiptStep::Done(Err(LookupError::UnexpectedAnswer))
    );
    assert_eq!(
        ReceiptLookup::PendingPool { hash }.advance(StorageAnswer::PendingTx(None)),
        ReceiptStep::Done(Err(LookupError::UnexpectedAnswer))
    );
    assert_eq!(
        ReceiptLookup::ExecutedTx { hash }.advance(StorageAnswer::PriorityOp(None)),
        ReceiptStep::Done(Err(LookupError::UnexpectedAnswer))
    );
    assert_eq!(
        DataLookup::begin(hash).advance(StorageAnswer::ExecutedTx(None)),
        DataStep::Done(Err(LookupError::UnexpectedAnswer))
    );
    assert_eq!(
        DataLookup::PendingTx { hash }.advance(StorageAnswer::PoolContains(true)),
        DataStep::Done(Err(LookupError::UnexpectedAnswer))
    );
    assert_eq!(
        DataLookup::ExecutedTx { hash }.advance(StorageAnswer::AggregatedOperation(None)),
        DataStep::Done(Err(LookupError::UnexpectedAnswer))
    );
}

#[test]
fn a_lookup_asks_step_by_step() {
    let hash = hash_of(0xcc);
    let lookup = ReceiptLookup::begin(hash);
    assert_eq!(lookup.query(), StorageQuery::FindPriorityOpByHash { eth_hash: hash });
    let step = lookup.advance(StorageAnswer::PriorityOp(Some(Storage::priority_record(
        BlockNumber(3),
    ))));
    let lookup = match step {
        ReceiptStep::Ask(next) => next,
        ReceiptStep::Done(outcome) => panic!("done too early: {:?}", outcome),
    };
    assert_eq!(
        lookup,
        ReceiptLookup::L1Finality { operation: Storage::priority_record(BlockNumber(3)) }
    );
    assert_eq!(lookup.query(), finality_of(3));

    let lookup = DataLookup::begin(hash);
    let step = lookup.advance(StorageAnswer::PriorityOp(None));
    assert_eq!(step, DataStep::Ask(DataLookup::ExecutedTx { hash }));
    let step = DataLookup::ExecutedTx { hash }
        .advance(StorageAnswer::ExecutedTx(Some(Storage::executed_record(true, false))));
    assert_eq!(
        step,
        DataStep::Ask(DataLookup::L2Finality {
            hash,
            executed: Storage::executed_record(true, false)
        })
    );
    let step = DataLookup::ExecutedTx { hash }.advance(StorageAnswer::ExecutedTx(None));
    assert_eq!(step, DataStep::Ask(DataLookup::PendingTx { hash }));
    assert_eq!(
        DataLookup::PendingTx { hash }.query(),
        StorageQuery::FindPendingTxByHash { tx_hash: hash }
    );
}
