//! Base-chain signatures that may accompany a rollup transaction.

use vstd::prelude::*;

verus! {

/// Number of bytes in the packed form of a recoverable signature.
pub const PACKED_SIGNATURE_LEN: usize = 65;

/// A recoverable signature of the base chain, held in its packed form:
/// 65 bytes.
#[derive(Debug, Clone, Copy, PartialEq, Eq)]
pub struct PackedEthSignature {
    pub packed: [u8; 65],
}

/// A signature that a contract of the base chain checks: bytes whose
/// meaning only that contract knows.
#[derive(Debug, PartialEq, Eq)]
pub struct EIP1271Signature(pub Vec<u8>);

/// The two kinds of base-chain signature.
#[derive(Debug, PartialEq, Eq)]
pub enum TxEthSignature {
    EthereumSignature(PackedEthSignature),
    EIP1271Signature(EIP1271Signature),
}

/// A base-chain signature together with the message that was signed.
#[derive(Debug, PartialEq, Eq)]
pub struct EthSignData {
    pub signature: TxEthSignature,
    pub message: Vec<u8>,
}

impl PackedEthSignature {
    /// The packed form of the signature.
    pub fn serialize_packed(&self) -> (packed: [u8; 65])
        ensures
            packed@ == self.packed@,
    {
        self.packed
    }
}

impl TxEthSignature {
    /// The bytes by which the signature is shown: the packed form of a
    /// recoverable signature, the raw bytes of a contract's signature.
    pub open spec fn bytes(self) -> Seq<u8> {
        match self {
            TxEthSignature::EthereumSignature(sign) => sign.packed@,
            TxEthSignature::EIP1271Signature(sign) => sign.0@,
        }
    }
}

} // verus!
