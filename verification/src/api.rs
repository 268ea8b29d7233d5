//! The entry points: a hash as text goes in, a lookup comes out, and the
//! results are built from the facts that storage returned.

use vstd::prelude::*;
use vstd::slice::slice_subrange;
use vstd::string::*;
use crate::hex_codec::{decode, hex_encode, DecodeError};
use crate::lookup::{DataLookup, ReceiptLookup};
use crate::model::{
    has_hex_prefix, spec_decode_hash, spec_is_block_finalized, spec_l1_receipt,
    spec_l1_tx_data, spec_l2_receipt, spec_l2_tx_data, spec_sign_bytes,
};
use crate::primitives::{TxHash, TX_HASH_LEN};
use crate::records::{
    AggregatedOperationFact, ExecutedTxRecord, PendingTxRecord, PriorityOperationRecord,
};
use crate::results::{L1Receipt, L2Receipt, Transaction, TxData};
use crate::signature::{EthSignData, TxEthSignature};
use crate::status::{L1Status, L2Status};

verus! {

/// Why a text is not the hash of a transaction.
#[derive(Debug, Clone, Copy, PartialEq, Eq)]
pub enum HashError {
    /// The text is not hexadecimal.
    Decode(DecodeError),
    /// The text is hexadecimal and stands for some number of bytes other
    /// than 32.
    InvalidLength,
}

/// The hash that a text stands for, or why it stands for none. A text that
/// is not hexadecimal fails as such, whatever its length.
pub open spec fn spec_parse_hash(tx_hash: Seq<char>) -> Result<Seq<u8>, HashError> {
    match spec_decode_hash(tx_hash) {
        Ok(bytes) => if bytes.len() == TX_HASH_LEN {
            Ok(bytes)
        } else {
            Err(HashError::InvalidLength)
        },
        Err(e) => Err(HashError::Decode(e)),
    }
}

/// What the endpoints for transactions share. The library keeps nothing
/// between two lookups, so there is nothing in it.
#[derive(Debug, Clone, Copy, PartialEq, Eq)]
pub struct ApiTransactionData {}

impl ApiTransactionData {
    pub fn new() -> (data: Self)
        ensures
            data == (ApiTransactionData {  }),
    {
        ApiTransactionData {  }
    }

    /// Decodes a hash written as hexadecimal text, with or without a leading
    /// `0x`. The bytes are not checked for their number.
    pub fn decode_hash(&self, tx_hash: String) -> (decoded: Result<Vec<u8>, DecodeError>)
        ensures
            match decoded {
                Ok(bytes) => spec_decode_hash(tx_hash@) == Ok::<Seq<u8>, DecodeError>(bytes@),
                Err(e) => spec_decode_hash(tx_hash@) == Err::<Seq<u8>, DecodeError>(e),
            },
    {
        let text = tx_hash.as_str().as_bytes();
        if text.len() >= 2 && text[0] == 0x30 && text[1] == 0x78 {
            assert(has_hex_prefix(text@));
            decode(slice_subrange(text, 2, text.len()))
        } else {
            decode(text)
        }
    }

    /// Whether a block is final, given the operation that executes it, if
    /// storage has one.
    pub fn is_block_finalized(operation: Option<AggregatedOperationFact>) -> (finalized: bool)
        ensures
            finalized == spec_is_block_finalized(operation),
    {
        match operation {
            Some(fact) => fact.confirmed,
            None => false,
        }
    }

    /// The receipt of a priority operation whose block is final or not.
    pub fn get_l1_receipt(record: &PriorityOperationRecord, finalized: bool) -> (receipt: L1Receipt)
        ensures
            receipt == spec_l1_receipt(*record, finalized),
            receipt.well_formed(),
    {
        L1Receipt {
            status: L1Status::of_finality(finalized),
            eth_block: record.eth_block,
            rollup_block: Some(record.rollup_block),
            id: record.priority_op_id,
        }
    }

    /// The receipt of a rollup transaction, given what storage has executed
    /// under its hash and whether the pending pool holds it. There is none
    /// where storage has neither.
    pub fn get_l2_receipt(
        tx_hash: TxHash,
        executed: Option<ExecutedTxRecord>,
        in_pool: bool,
    ) -> (receipt: Option<L2Receipt>)
        ensures
            receipt == spec_l2_receipt(tx_hash, executed, in_pool),
            receipt is Some <==> executed is Some || in_pool,
            receipt matches Some(r) ==> r.well_formed(),
    {
        match executed {
            Some(record) => {
                let status = L2Status::of_execution(record.success, record.verified);
                Some(
                    L2Receipt {
                        tx_hash,
                        rollup_block: Some(record.rollup_block),
                        status,
                        fail_reason: record.fail_reason,
                    },
                )
            },
            None => {
                if in_pool {
                    Some(
                        L2Receipt {
                            tx_hash,
                            rollup_block: None,
                            status: L2Status::Queued,
                            fail_reason: None,
                        },
                    )
                } else {
                    None
                }
            },
        }
    }

    /// Writes a base-chain signature as text: `0x` and the bytes of the
    /// signature in lower-case hexadecimal digits.
    pub fn get_sign_bytes(eth_sign_data: EthSignData) -> (text: String)
        ensures
            text@ == spec_sign_bytes(eth_sign_data),
    {
        let mut result = String::from_str("0x");
        proof {
            reveal_strlit("0x");
            assert(result@ =~= seq!['0', 'x']);
        }
        match eth_sign_data.signature {
            TxEthSignature::EthereumSignature(sign) => {
                let packed = sign.serialize_packed();
                let digits = hex_encode(packed.as_slice());
                result.append(digits.as_str());
            },
            TxEthSignature::EIP1271Signature(sign) => {
                let digits = hex_encode(sign.0.as_slice());
                result.append(digits.as_str());
            },
        }
        result
    }

    /// The signature that came with a transaction, as text.
    fn eth_signature(eth_sign_data: Option<EthSignData>) -> (text: Option<String>)
        ensures
            match text {
                Some(t) => eth_sign_data matches Some(data) && t@ == spec_sign_bytes(data),
                None => eth_sign_data is None,
            },
    {
        match eth_sign_data {
            Some(data) => Some(Self::get_sign_bytes(data)),
            None => None,
        }
    }

    /// A priority operation in the shape of a rollup transaction.
    pub fn get_l1_tx_data(
        eth_hash: TxHash,
        record: PriorityOperationRecord,
        finalized: bool,
    ) -> (data: TxData)
        ensures
            data@ == spec_l1_tx_data(eth_hash, record, finalized),
            data.tx.well_formed(),
    {
        let status = L2Status::from(L1Status::of_finality(finalized));
        let tx = Transaction {
            tx_hash: eth_hash,
            block_number: Some(record.rollup_block),
            op: record.payload,
            status,
            fail_reason: None,
            created_at: record.created_at,
        };
        TxData { tx, eth_signature: None }
    }

    /// A rollup transaction, given what storage has executed under its
    /// hash, whether the block of that record is final, and what the pending
    /// pool holds under the hash. There is none where storage has neither.
    pub fn get_l2_tx_data(
        tx_hash: TxHash,
        executed: Option<ExecutedTxRecord>,
        finalized: bool,
        pending: Option<PendingTxRecord>,
    ) -> (data: Option<TxData>)
        ensures
            match data {
                Some(d) => Some(d@) == spec_l2_tx_data(tx_hash, executed, finalized, pending),
                None => spec_l2_tx_data(tx_hash, executed, finalized, pending) is None,
            },
            data is Some <==> executed is Some || pending is Some,
            data matches Some(d) ==> d.tx.well_formed(),
    {
        match executed {
            Some(record) => {
                let status = L2Status::of_execution(record.success, finalized);
                let tx = Transaction {
                    tx_hash,
                    block_number: Some(record.rollup_block),
                    op: record.payload,
                    status,
                    fail_reason: record.fail_reason,
                    created_at: record.created_at,
                };
                let eth_signature = Self::eth_signature(record.eth_sign_data);
                Some(TxData { tx, eth_signature })
            },
            None => {
                match pending {
                    Some(record) => {
                        let tx = Transaction {
                            tx_hash,
                            block_number: None,
                            op: record.payload,
                            status: L2Status::Queued,
                            fail_reason: None,
                            created_at: record.created_at,
                        };
                        let eth_signature = Self::eth_signature(record.eth_sign_data);
                        Some(TxData { tx, eth_signature })
                    },
                    None => None,
                }
            },
        }
    }

    /// Begins the lookup of the receipt of the transaction with hash
    /// `tx_hash`. Nothing has been asked of storage yet.
    pub fn tx_status(&self, tx_hash: &[u8; 32]) -> (lookup: ReceiptLookup)
        ensures
            lookup == ReceiptLookup::spec_begin(TxHash { data: *tx_hash }),
    {
        ReceiptLookup::begin(TxHash { data: *tx_hash })
    }

    /// Begins the lookup of the transaction with hash `tx_hash`. Nothing has
    /// been asked of storage yet.
    pub fn tx_data(&self, tx_hash: &[u8; 32]) -> (lookup: DataLookup)
        ensures
            lookup == DataLookup::spec_begin(TxHash { data: *tx_hash }),
    {
        DataLookup::begin(TxHash { data: *tx_hash })
    }
}

/// Reads the hash that a text stands for.
fn parse_hash(data: &ApiTransactionData, tx_hash: String) -> (parsed: Result<TxHash, HashError>)
    ensures
        match parsed {
            Ok(hash) => spec_parse_hash(tx_hash@) == Ok::<Seq<u8>, HashError>(hash@),
            Err(e) => spec_parse_hash(tx_hash@) == Err::<Seq<u8>, HashError>(e),
        },
{
    match data.decode_hash(tx_hash) {
        Ok(bytes) => match TxHash::from_slice(bytes.as_slice()) {
            Some(hash) => Ok(hash),
            None => Err(HashError::InvalidLength),
        },
        Err(e) => Err(HashError::Decode(e)),
    }
}

/// Begins the lookup of the receipt of the transaction whose hash is
/// written in `tx_hash`.
///
/// A text that is no hash is refused here, before there is a lookup that
/// could ask anything of storage.
pub fn tx_status(data: &ApiTransactionData, tx_hash: String) -> (begun: Result<
    ReceiptLookup,
    HashError,
>)
    ensures
        match begun {
            Ok(lookup) => lookup matches ReceiptLookup::PriorityOp { hash }
                && spec_parse_hash(tx_hash@) == Ok::<Seq<u8>, HashError>(hash@),
            Err(e) => spec_parse_hash(tx_hash@) == Err::<Seq<u8>, HashError>(e),
        },
{
    match parse_hash(data, tx_hash) {
        Ok(hash) => Ok(data.tx_status(&hash.data)),
        Err(e) => Err(e),
    }
}

/// Begins the lookup of the transaction whose hash is written in
/// `tx_hash`.
///
/// A text that is no hash is refused here, before there is a lookup that
/// could ask anything of storage.
pub fn tx_data(data: &ApiTransactionData, tx_hash: String) -> (begun: Result<
    DataLookup,
    HashError,
>)
    ensures
        match begun {
            Ok(lookup) => lookup matches DataLookup::PriorityOp { hash }
                && spec_parse_hash(tx_hash@) == Ok::<Seq<u8>, HashError>(hash@),
            Err(e) => spec_parse_hash(tx_hash@) == Err::<Seq<u8>, HashError>(e),
        },
{
    match parse_hash(data, tx_hash) {
        Ok(hash) => Ok(data.tx_data(&hash.data)),
        Err(e) => Err(e),
    }
}

} // verus!
