//! What holds of every lookup.
//!
//! The first two laws say that a lookup, driven against a storage with
//! fixed tables, ends with the result that `model` gives for those tables.
//! The others are read off that result.

use vstd::prelude::*;
use vstd::std_specs::convert::FromSpec;
use vstd::utf8::{encode_utf8, is_ascii_chars_encode_utf8};
use crate::api::{spec_parse_hash, HashError};
use crate::hex_codec::{
    all_hex_digits, byte_of_digits, bytes_of_digits, first_bad_digit, hex_digit_value,
    is_hex_digit, lemma_first_bad_digit, lemma_first_bad_digit_is_first, lower_hex_digit,
    spec_hex_decode, spec_hex_encode, DecodeError,
};
use crate::lookup::{run_data, run_receipt, DataLookup, DataStepView, ReceiptLookup, ReceiptStep};
use crate::model::{
    has_hex_prefix, spec_decode_hash, spec_sign_bytes, spec_tx_data, spec_tx_status,
};
use crate::primitives::{TxHash, TX_HASH_LEN};
use crate::results::{L1Receipt, L2Receipt, Receipt, TxDataView};
use crate::signature::EthSignData;
use crate::status::{L1Status, L2Status};
use crate::storage::{LookupError, Sources, StorageAnswer, StorageError};

verus! {

/// A lookup of a receipt that is answered from fixed tables ends without
/// error, with the receipt that the tables determine.
pub proof fn law_receipt_lookup_resolves(sources: Sources, hash: TxHash)
    ensures
        run_receipt(sources, ReceiptLookup::spec_begin(hash)) == Ok::<
            Option<Receipt>,
            LookupError,
        >(spec_tx_status(sources, hash)),
{
    reveal_with_fuel(run_receipt, 4);
}

/// A lookup of a full transaction that is answered from fixed tables ends
/// without error, with the transaction that the tables determine.
pub proof fn law_data_lookup_resolves(sources: Sources, hash: TxHash)
    ensures
        run_data(sources, DataLookup::spec_begin(hash)) == Ok::<
            Option<TxDataView>,
            LookupError,
        >(spec_tx_data(sources, hash)),
{
    reveal_with_fuel(run_data, 4);
}

/// A hash that no table knows has neither a receipt nor a transaction, and
/// that is no error.
pub proof fn law_unknown_hash_has_no_result(sources: Sources, hash: TxHash)
    requires
        sources.unknown(hash),
    ensures
        spec_tx_status(sources, hash) is None,
        spec_tx_data(sources, hash) is None,
        run_receipt(sources, ReceiptLookup::spec_begin(hash)) == Ok::<
            Option<Receipt>,
            LookupError,
        >(None),
        run_data(sources, DataLookup::spec_begin(hash)) == Ok::<
            Option<TxDataView>,
            LookupError,
        >(None),
{
    law_receipt_lookup_resolves(sources, hash);
    law_data_lookup_resolves(sources, hash);
}

/// A hash that only the pending pool knows is a queued transaction: without
/// a block and without a reason for failure, and with the payload and the
/// creation time of the pool's record.
pub proof fn law_pending_only_is_queued(sources: Sources, hash: TxHash)
    requires
        !sources.priority_ops.contains_key(hash),
        !sources.executed.contains_key(hash),
        sources.pending.contains_key(hash),
    ensures
        run_data(sources, DataLookup::spec_begin(hash)) == Ok::<
            Option<TxDataView>,
            LookupError,
        >(spec_tx_data(sources, hash)),
        spec_tx_data(sources, hash) matches Some(data) && {
            &&& data.tx.tx_hash == hash
            &&& data.tx.status == L2Status::Queued
            &&& data.tx.block_number is None
            &&& data.tx.fail_reason is None
            &&& data.tx.op == sources.pending[hash].payload
            &&& data.tx.created_at == sources.pending[hash].created_at
        },
        spec_tx_status(sources, hash) == Some(
            Receipt::L2(
                L2Receipt {
                    tx_hash: hash,
                    rollup_block: None,
                    status: L2Status::Queued,
                    fail_reason: None,
                },
            ),
        ),
{
    law_data_lookup_resolves(sources, hash);
}

/// The receipt of a rollup transaction that was executed with success is
/// `Finalized` where the record is verified and `Committed` where it is not.
pub proof fn law_successful_receipt_follows_verified(sources: Sources, hash: TxHash)
    requires
        !sources.priority_ops.contains_key(hash),
        sources.executed.contains_key(hash),
        sources.executed[hash].success,
    ensures
        run_receipt(sources, ReceiptLookup::spec_begin(hash)) == Ok::<
            Option<Receipt>,
            LookupError,
        >(spec_tx_status(sources, hash)),
        spec_tx_status(sources, hash) matches Some(Receipt::L2(receipt)) && {
            &&& receipt.rollup_block == Some(sources.executed[hash].rollup_block)
            &&& sources.executed[hash].verified ==> receipt.status == L2Status::Finalized
            &&& !sources.executed[hash].verified ==> receipt.status == L2Status::Committed
        },
{
    law_receipt_lookup_resolves(sources, hash);
}

/// The full record of a rollup transaction that was executed with success
/// is `Finalized` where the base chain has confirmed the execution of its
/// block and `Committed` where it has not.
pub proof fn law_successful_data_follows_finality(sources: Sources, hash: TxHash)
    requires
        !sources.priority_ops.contains_key(hash),
        sources.executed.contains_key(hash),
        sources.executed[hash].success,
    ensures
        run_data(sources, DataLookup::spec_begin(hash)) == Ok::<
            Option<TxDataView>,
            LookupError,
        >(spec_tx_data(sources, hash)),
        spec_tx_data(sources, hash) matches Some(data) && {
            let record = sources.executed[hash];
            let finalized = sources.finalized(record.rollup_block);
            &&& data.tx.block_number == Some(record.rollup_block)
            &&& finalized ==> data.tx.status == L2Status::Finalized
            &&& !finalized ==> data.tx.status == L2Status::Committed
        },
{
    law_data_lookup_resolves(sources, hash);
}

/// Where the record of a rollup transaction that was executed with success
/// says of verification what the base chain says of its block, the full
/// record is `Finalized` where the record is verified and `Committed` where
/// it is not.
pub proof fn law_successful_data_follows_verified(sources: Sources, hash: TxHash)
    requires
        !sources.priority_ops.contains_key(hash),
        sources.executed.contains_key(hash),
        sources.executed[hash].success,
        sources.executed[hash].verified == sources.finalized(sources.executed[hash].rollup_block),
    ensures
        spec_tx_data(sources, hash) matches Some(data) && {
            &&& sources.executed[hash].verified ==> data.tx.status == L2Status::Finalized
            &&& !sources.executed[hash].verified ==> data.tx.status == L2Status::Committed
        },
{
}

/// A rollup transaction whose execution failed is `Rejected`, whatever its
/// record says of verification and whatever the base chain has confirmed,
/// and the reason given is the stored one.
pub proof fn law_failed_execution_is_rejected(sources: Sources, hash: TxHash)
    requires
        !sources.priority_ops.contains_key(hash),
        sources.executed.contains_key(hash),
        !sources.executed[hash].success,
    ensures
        spec_tx_status(sources, hash) matches Some(Receipt::L2(receipt)) && {
            &&& receipt.status == L2Status::Rejected
            &&& receipt.fail_reason == sources.executed[hash].fail_reason
        },
        spec_tx_data(sources, hash) matches Some(data) && {
            &&& data.tx.status == L2Status::Rejected
            &&& data.tx.fail_reason == sources.executed[hash].fail_reason
        },
        run_receipt(sources, ReceiptLookup::spec_begin(hash)) == Ok::<
            Option<Receipt>,
            LookupError,
        >(spec_tx_status(sources, hash)),
        run_data(sources, DataLookup::spec_begin(hash)) == Ok::<
            Option<TxDataView>,
            LookupError,
        >(spec_tx_data(sources, hash)),
{
    law_receipt_lookup_resolves(sources, hash);
    law_data_lookup_resolves(sources, hash);
}

/// A priority operation is `Finalized` exactly where the base chain has
/// confirmed the operation that executes its rollup block, and `Committed`
/// otherwise. As a transaction it is never `Queued` and never `Rejected`.
pub proof fn law_priority_operation_follows_finality(sources: Sources, hash: TxHash)
    requires
        sources.priority_ops.contains_key(hash),
    ensures
        spec_tx_status(sources, hash) matches Some(Receipt::L1(receipt)) && {
            let record = sources.priority_ops[hash];
            let finalized = sources.finalized(record.rollup_block);
            &&& receipt.status == L1Status::Finalized <==> finalized
            &&& receipt.status == L1Status::Committed <==> !finalized
            &&& receipt.eth_block == record.eth_block
            &&& receipt.rollup_block == Some(record.rollup_block)
            &&& receipt.id == record.priority_op_id
        },
        spec_tx_data(sources, hash) matches Some(data) && {
            let record = sources.priority_ops[hash];
            let finalized = sources.finalized(record.rollup_block);
            &&& data.tx.status == L2Status::Finalized <==> finalized
            &&& data.tx.status == L2Status::Committed <==> !finalized
            &&& data.tx.status != L2Status::Queued
            &&& data.tx.status != L2Status::Rejected
            &&& data.tx.fail_reason is None
            &&& data.eth_signature is None
        },
        run_receipt(sources, ReceiptLookup::spec_begin(hash)) == Ok::<
            Option<Receipt>,
            LookupError,
        >(spec_tx_status(sources, hash)),
        run_data(sources, DataLookup::spec_begin(hash)) == Ok::<
            Option<TxDataView>,
            LookupError,
        >(spec_tx_data(sources, hash)),
{
    law_receipt_lookup_resolves(sources, hash);
    law_data_lookup_resolves(sources, hash);
}

/// An executed record decides alone: what the pending pool holds under the
/// same hash makes no difference to the result.
pub proof fn law_executed_overrides_pending(sources: Sources, stale: Sources, hash: TxHash)
    requires
        sources.executed.contains_key(hash),
        stale.priority_ops == sources.priority_ops,
        stale.executed == sources.executed,
        stale.aggregated == sources.aggregated,
    ensures
        spec_tx_status(stale, hash) == spec_tx_status(sources, hash),
        spec_tx_data(stale, hash) == spec_tx_data(sources, hash),
        run_receipt(stale, ReceiptLookup::spec_begin(hash)) == run_receipt(
            sources,
            ReceiptLookup::spec_begin(hash),
        ),
        run_data(stale, DataLookup::spec_begin(hash)) == run_data(
            sources,
            DataLookup::spec_begin(hash),
        ),
{
    law_receipt_lookup_resolves(sources, hash);
    law_receipt_lookup_resolves(stale, hash);
    law_data_lookup_resolves(sources, hash);
    law_data_lookup_resolves(stale, hash);
}

/// A priority operation decides alone: what storage holds of rollup
/// transactions under the same hash makes no difference to the result.
pub proof fn law_priority_operation_overrides_rollup(
    sources: Sources,
    other: Sources,
    hash: TxHash,
)
    requires
        sources.priority_ops.contains_key(hash),
        other.priority_ops == sources.priority_ops,
        other.aggregated == sources.aggregated,
    ensures
        spec_tx_status(other, hash) == spec_tx_status(sources, hash),
        spec_tx_data(other, hash) == spec_tx_data(sources, hash),
        run_receipt(other, ReceiptLookup::spec_begin(hash)) == run_receipt(
            sources,
            ReceiptLookup::spec_begin(hash),
        ),
        run_data(other, DataLookup::spec_begin(hash)) == run_data(
            sources,
            DataLookup::spec_begin(hash),
        ),
{
    law_receipt_lookup_resolves(sources, hash);
    law_receipt_lookup_resolves(other, hash);
    law_data_lookup_resolves(sources, hash);
    law_data_lookup_resolves(other, hash);
}

/// Whatever the tables hold, a result names the hash that was looked up,
/// and it has a rollup block exactly when its status is past `Queued`.
pub proof fn law_results_are_well_formed(sources: Sources, hash: TxHash)
    ensures
        spec_tx_status(sources, hash) matches Some(receipt) ==> receipt.well_formed(),
        spec_tx_status(sources, hash) matches Some(Receipt::L2(receipt)) ==> receipt.tx_hash
            == hash,
        spec_tx_data(sources, hash) matches Some(data) ==> data.tx.well_formed()
            && data.tx.tx_hash == hash,
{
}

/// A lookup asks at most three times: it begins with three questions to
/// go, and a lookup that waits has at least one.
pub proof fn law_at_most_three_questions(
    hash: TxHash,
    receipt_lookup: ReceiptLookup,
    data_lookup: DataLookup,
    answer: StorageAnswer,
)
    ensures
        ReceiptLookup::spec_begin(hash).remaining() == 3,
        DataLookup::spec_begin(hash).remaining() == 3,
        receipt_lookup.remaining() >= 1,
        data_lookup.remaining() >= 1,
        receipt_lookup.spec_advance(answer) matches ReceiptStep::Ask(next) ==> next.remaining()
            < receipt_lookup.remaining(),
        data_lookup.spec_advance(answer) matches DataStepView::Ask(next) ==> next.remaining()
            < data_lookup.remaining(),
{
}

/// Where the executed record is well formed, a reason for failure marks
/// exactly the rejected transactions.
pub proof fn law_fail_reason_marks_rejection(sources: Sources, hash: TxHash)
    requires
        sources.executed.contains_key(hash) ==> sources.executed[hash].well_formed(),
    ensures
        spec_tx_status(sources, hash) matches Some(Receipt::L2(receipt)) ==> (
        receipt.fail_reason is Some <==> receipt.status == L2Status::Rejected),
        spec_tx_data(sources, hash) matches Some(data) ==> (data.tx.fail_reason is Some
            <==> data.tx.status == L2Status::Rejected),
{
}

/// Confirmation by the base chain never moves a status backwards: a
/// rejected transaction stays rejected, and any other is at least as far on
/// the way from `Queued` to `Finalized` as it was.
pub proof fn law_confirmation_only_advances(success: bool)
    ensures
        L2Status::spec_of_execution(success, false) == L2Status::Rejected
            <==> L2Status::spec_of_execution(success, true) == L2Status::Rejected,
        success ==> L2Status::spec_of_execution(success, false).progress().unwrap()
            < L2Status::spec_of_execution(success, true).progress().unwrap(),
        L2Status::Queued.progress().unwrap() < L2Status::spec_of_execution(
            true,
            false,
        ).progress().unwrap(),
        L2Status::from_spec(L1Status::Committed).progress().unwrap() < L2Status::from_spec(
            L1Status::Finalized,
        ).progress().unwrap(),
{
}

/// The status is computed at every lookup: between two storages that
/// differ only in what the base chain has confirmed, the receipt of a
/// priority operation differs only in its status.
pub proof fn law_status_is_recomputed(before: Sources, after: Sources, hash: TxHash)
    requires
        before.priority_ops.contains_key(hash),
        after.priority_ops == before.priority_ops,
        after.executed == before.executed,
        after.pending == before.pending,
    ensures
        spec_tx_status(before, hash) matches Some(Receipt::L1(old_receipt)) && spec_tx_status(
            after,
            hash,
        ) matches Some(Receipt::L1(new_receipt)) && {
            let block = before.priority_ops[hash].rollup_block;
            &&& new_receipt == L1Receipt { status: new_receipt.status, ..old_receipt }
            &&& old_receipt.status == L1Status::spec_of_finality(before.finalized(block))
            &&& new_receipt.status == L1Status::spec_of_finality(after.finalized(block))
        },
{
}

/// A failed read ends a lookup at once, and the failure comes out as it
/// went in, whatever the lookup was waiting for.
pub proof fn law_failure_is_passed_on(
    receipt_lookup: ReceiptLookup,
    data_lookup: DataLookup,
    error: StorageError,
)
    ensures
        receipt_lookup.spec_advance(StorageAnswer::Failed(error)) == ReceiptStep::Done(
            Err(LookupError::Storage(error)),
        ),
        data_lookup.spec_advance(StorageAnswer::Failed(error)) == DataStepView::Done(
            Err(LookupError::Storage(error)),
        ),
{
}

/// A lookup that gets the kind of answer it asked for never ends with
/// `UnexpectedAnswer`, and one that gets another kind always does.
pub proof fn law_unexpected_answer(
    receipt_lookup: ReceiptLookup,
    data_lookup: DataLookup,
    answer: StorageAnswer,
)
    ensures
        answer.answers(receipt_lookup.spec_query()) <==> receipt_lookup.spec_advance(answer)
            != ReceiptStep::Done(Err(LookupError::UnexpectedAnswer)),
        answer.answers(data_lookup.spec_query()) <==> data_lookup.spec_advance(answer)
            != DataStepView::Done(Err(LookupError::UnexpectedAnswer)),
{
}

/// Decoding accepts exactly the texts of even length that are made of
/// hexadecimal digits: an odd length is refused as such, and otherwise the
/// first byte that is no digit is reported.
pub proof fn law_decode_accepts_exactly_hex(text: Seq<u8>)
    ensures
        spec_hex_decode(text) is Ok <==> text.len() % 2 == 0 && all_hex_digits(text),
        text.len() % 2 == 1 ==> spec_hex_decode(text) == Err::<Seq<u8>, DecodeError>(
            DecodeError::OddLength,
        ),
        spec_hex_decode(text) matches Ok(bytes) ==> 2 * bytes.len() == text.len(),
{
    lemma_first_bad_digit_is_first(text);
    if all_hex_digits(text) {
        lemma_first_bad_digit(text, text.len() as int);
    }
}

/// The bytes of `0x` followed by `rest` are the two bytes of `0x` followed
/// by the bytes of `rest`.
pub proof fn lemma_prefixed_bytes(rest: Seq<char>)
    ensures
        encode_utf8(seq!['0', 'x'] + rest) == seq![0x30u8, 0x78u8] + encode_utf8(rest),
{
    let text = seq!['0', 'x'] + rest;
    let tail = seq!['x'] + rest;
    assert(text.drop_first() =~= tail);
    assert(tail.drop_first() =~= rest);
    assert(text[0] == '0');
    assert(tail[0] == 'x');
    let zero: u32 = '0' as u32;
    let ex: u32 = 'x' as u32;
    assert(zero == 0x30 && ex == 0x78);
    assert((0x30u32 & 0x7F) as u8 == 0x30u8) by (bit_vector);
    assert((0x78u32 & 0x7F) as u8 == 0x78u8) by (bit_vector);
    assert(encode_utf8(tail) =~= seq![0x78u8] + encode_utf8(rest));
    assert(encode_utf8(text) =~= seq![0x30u8] + encode_utf8(tail));
    assert(encode_utf8(text) =~= seq![0x30u8, 0x78u8] + encode_utf8(rest));
}

/// Whether a text decodes to the same with and without a `0x` in front of
/// it. It does unless it begins with `0x` itself: only one `0x` is taken
/// off, so the second is then read as digits. Even then both readings
/// fail alike where the length is odd, or where the text goes on with a
/// digit and another `x`.
pub open spec fn prefix_makes_no_difference(rest: Seq<u8>) -> bool {
    ||| !has_hex_prefix(rest)
    ||| rest.len() % 2 == 1
    ||| (rest.len() >= 4 && is_hex_digit(rest[2]) && rest[3] == 0x78)
}

/// A hash is read the same with and without `0x` in front of it, exactly
/// on the texts of `prefix_makes_no_difference`: among them every text
/// that does not begin with `0x` itself. The text is one that fits in
/// memory.
pub proof fn law_hex_prefix_is_optional(rest: Seq<char>)
    requires
        encode_utf8(rest).len() <= usize::MAX,
    ensures
        spec_decode_hash(seq!['0', 'x'] + rest) == spec_decode_hash(rest)
            <==> prefix_makes_no_difference(encode_utf8(rest)),
        spec_parse_hash(seq!['0', 'x'] + rest) == spec_parse_hash(rest)
            <==> prefix_makes_no_difference(encode_utf8(rest)),
{
    let bytes = encode_utf8(rest);
    let prefixed = seq![0x30u8, 0x78u8] + bytes;
    lemma_prefixed_bytes(rest);
    assert(has_hex_prefix(prefixed));
    assert(prefixed.skip(2) =~= bytes);
    let with_prefix = spec_hex_decode(bytes);
    assert(spec_decode_hash(seq!['0', 'x'] + rest) == with_prefix);
    if has_hex_prefix(bytes) {
        let tail = bytes.skip(2);
        let without_prefix = spec_hex_decode(tail);
        assert(spec_decode_hash(rest) == without_prefix);
        assert(is_hex_digit(bytes[0]));
        assert(!is_hex_digit(bytes[1]));
        lemma_first_bad_digit(bytes, 1);
        lemma_first_bad_digit_is_first(tail);
        assert(tail.len() == bytes.len() - 2);
        if bytes.len() % 2 == 0 {
            assert(with_prefix == Err::<Seq<u8>, DecodeError>(
                DecodeError::InvalidHexCharacter { c: bytes[1] as char, index: 1 },
            ));
            let bad = first_bad_digit(tail);
            if bytes.len() >= 4 && is_hex_digit(bytes[2]) && bytes[3] == 0x78 {
                assert(tail[0] == bytes[2]);
                assert(tail[1] == bytes[3]);
                lemma_first_bad_digit(tail, 1);
                assert(with_prefix == without_prefix);
            } else if bad < tail.len() {
                assert(without_prefix == Err::<Seq<u8>, DecodeError>(
                    DecodeError::InvalidHexCharacter { c: tail[bad] as char, index: bad as usize },
                ));
                if bad == 1 {
                    assert(tail[0] == bytes[2]);
                    assert(tail[1] == bytes[3]);
                    lemma_char_of_byte_injective(tail[1], 0x78u8);
                    assert(tail[1] as char != bytes[1] as char);
                } else {
                    assert(bad as usize != 1usize);
                }
                assert(with_prefix != without_prefix);
            } else {
                assert(without_prefix is Ok);
            }
        } else {
            assert(with_prefix == without_prefix);
        }
    } else {
        assert(spec_decode_hash(rest) == with_prefix);
    }
}

/// Two bytes that are the same character are the same byte.
pub proof fn lemma_char_of_byte_injective(a: u8, b: u8)
    ensures
        a as char == b as char ==> a == b,
{
    assert((a as char) as u32 == a as u32);
    assert((b as char) as u32 == b as u32);
}

/// Decoding undoes encoding: the hexadecimal form of any bytes, read as
/// text, decodes to those bytes.
pub proof fn law_decode_inverts_encode(bytes: Seq<u8>)
    ensures
        spec_hex_decode(encode_utf8(spec_hex_encode(bytes))) == Ok::<Seq<u8>, DecodeError>(bytes),
{
    let text = spec_hex_encode(bytes);
    let digits = encode_utf8(text);
    assert forall|k: int| 0 <= k < text.len() implies '\0' <= #[trigger] text[k] <= '\u{7f}' by {
        lemma_lower_hex_digit(bytes[k / 2] as int / 16);
        lemma_lower_hex_digit(bytes[k / 2] as int % 16);
    }
    is_ascii_chars_encode_utf8(text);
    assert forall|k: int| 0 <= k < digits.len() implies is_hex_digit(#[trigger] digits[k]) by {
        lemma_lower_hex_digit(bytes[k / 2] as int / 16);
        lemma_lower_hex_digit(bytes[k / 2] as int % 16);
        assert(digits[k] == text[k] as u8);
    }
    lemma_first_bad_digit(digits, digits.len() as int);
    assert forall|i: int| 0 <= i < bytes.len() implies byte_of_digits(digits, i) == bytes[i] by {
        lemma_lower_hex_digit(bytes[i] as int / 16);
        lemma_lower_hex_digit(bytes[i] as int % 16);
        assert(digits[2 * i] == text[2 * i] as u8);
        assert(digits[2 * i + 1] == text[2 * i + 1] as u8);
        assert((2 * i) / 2 == i && (2 * i) % 2 == 0);
        assert((2 * i + 1) / 2 == i && (2 * i + 1) % 2 == 1);
    }
    assert(bytes_of_digits(digits) =~= bytes);
}

/// The digit for a number below 16 is an ASCII character, a hexadecimal
/// digit, and stands for that number.
pub proof fn lemma_lower_hex_digit(nibble: int)
    requires
        0 <= nibble < 16,
    ensures
        '\0' <= lower_hex_digit(nibble) <= '\u{7f}',
        hex_digit_value(lower_hex_digit(nibble) as u8) == Some(nibble as u8),
{
}

/// The text of a signature reads back as the bytes of the signature.
pub proof fn law_sign_bytes_read_back(eth_sign_data: EthSignData)
    ensures
        spec_decode_hash(spec_sign_bytes(eth_sign_data)) == Ok::<Seq<u8>, DecodeError>(
            eth_sign_data.signature.bytes(),
        ),
{
    let bytes = eth_sign_data.signature.bytes();
    let rest = spec_hex_encode(bytes);
    lemma_prefixed_bytes(rest);
    law_decode_inverts_encode(bytes);
    let prefixed = seq![0x30u8, 0x78u8] + encode_utf8(rest);
    assert(has_hex_prefix(prefixed));
    assert(prefixed.skip(2) =~= encode_utf8(rest));
}

/// A text is refused for its length exactly where it is hexadecimal and
/// stands for some number of bytes other than 32, and for its digits
/// exactly where it is not hexadecimal. A text that is accepted stands for
/// 32 bytes.
pub proof fn law_hash_has_32_bytes(tx_hash: Seq<char>)
    ensures
        spec_parse_hash(tx_hash) == Err::<Seq<u8>, HashError>(HashError::InvalidLength)
            <==> (spec_decode_hash(tx_hash) matches Ok(bytes) && bytes.len() != TX_HASH_LEN),
        spec_parse_hash(tx_hash) matches Err(HashError::Decode(e)) <==> spec_decode_hash(tx_hash)
            is Err,
        spec_parse_hash(tx_hash) matches Ok(bytes) ==> bytes.len() == TX_HASH_LEN,
{
}

} // verus!
