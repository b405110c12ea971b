//! The ledger as this crate sees it: addresses and transaction digests, each
//! 32 bytes, with their text forms, and what is read out of a transaction
//! body.
//!
//! An address is written in hexadecimal behind `0x`. A digest is written in
//! Base58. A transaction body is the canonical serialization of a
//! transaction; reading it, and hashing it into its digest, is the work of
//! `iota_sdk_types`.

use crate::encoding::{
    base58_decode, base58_decoded, base58_encode, base58_encoded, hex_decode, hex_decoded,
    hex_encode_prefixed, lemma_prefixed_hex_decodes, prefixed_hex,
};
use iota_sdk_types::Transaction;
use vstd::prelude::*;

verus! {

/// What the ledger reads out of a transaction body: the digest of the
/// transaction and its sender. `None` where the body is no transaction.
pub uninterp spec fn ledger_transaction(body: Seq<u8>) -> Option<ParsedTransaction>;

/// The number of bytes in an address and in a digest.
pub const ID_LENGTH: usize = 32;

/// The bytes of the address that `text` spells; `None` where it spells none.
/// A text spells an address where it is hexadecimal, with or without `0x`, for
/// exactly 32 bytes.
pub open spec fn address_bytes(text: Seq<char>) -> Option<Seq<u8>> {
    match hex_decoded(text) {
        Some(bytes) => if bytes.len() == ID_LENGTH {
            Some(bytes)
        } else {
            None
        },
        None => None,
    }
}

/// The bytes of the digest that `text` spells; `None` where it spells none.
/// A text spells a digest where it is Base58 for exactly 32 bytes.
pub open spec fn digest_bytes(text: Seq<char>) -> Option<Seq<u8>> {
    match base58_decoded(text) {
        Some(bytes) => if bytes.len() == ID_LENGTH {
            Some(bytes)
        } else {
            None
        },
        None => None,
    }
}

/// Whether `text` spells an address.
pub open spec fn is_address_text(text: Seq<char>) -> bool {
    address_bytes(text) is Some
}

/// Whether `text` spells a digest.
pub open spec fn is_digest_text(text: Seq<char>) -> bool {
    digest_bytes(text) is Some
}

/// Copies a vector of 32 bytes into an array.
fn to_array(bytes: &Vec<u8>) -> (array: [u8; 32])
    requires
        bytes@.len() == ID_LENGTH,
    ensures
        array@ == bytes@,
{
    let mut array = [0u8; 32];
    let mut i: usize = 0;
    while i < 32
        invariant
            i <= 32,
            bytes@.len() == 32,
            forall|k: int| 0 <= k < i ==> array@[k] == bytes@[k],
        decreases 32 - i,
    {
        array[i] = bytes[i];
        i += 1;
    }
    assert(array@ =~= bytes@);
    array
}

/// An address of the ledger.
#[derive(Clone, Copy, Debug, PartialEq, Eq)]
pub struct Address {
    pub bytes: [u8; 32],
}

impl Address {
    /// Reads an address from its text. `None` where the text spells none.
    pub fn from_text(text: &str) -> (r: Option<Address>)
        ensures
            match r {
                Some(address) => address_bytes(text@) == Some(address.bytes@),
                None => address_bytes(text@) is None,
            },
    {
        match hex_decode(text) {
            Some(bytes) => {
                if bytes.len() == ID_LENGTH {
                    Some(Address { bytes: to_array(&bytes) })
                } else {
                    None
                }
            },
            None => None,
        }
    }

    /// Writes the address as `0x` and 64 lower-case hexadecimal digits.
    pub fn to_text(&self) -> (text: String)
        ensures
            text@ == prefixed_hex(self.bytes@),
            address_bytes(text@) == Some(self.bytes@),
    {
        proof {
            lemma_prefixed_hex_decodes(self.bytes@);
        }
        hex_encode_prefixed(&self.bytes)
    }
}

/// The digest of a transaction.
#[derive(Clone, Copy, Debug, PartialEq, Eq)]
pub struct TransactionDigest {
    pub bytes: [u8; 32],
}

impl TransactionDigest {
    /// Reads a digest from its text. `None` where the text spells none.
    pub fn from_text(text: &str) -> (r: Option<TransactionDigest>)
        ensures
            match r {
                Some(digest) => digest_bytes(text@) == Some(digest.bytes@),
                None => digest_bytes(text@) is None,
            },
    {
        match base58_decode(text) {
            Some(bytes) => {
                if bytes.len() == ID_LENGTH {
                    Some(TransactionDigest { bytes: to_array(&bytes) })
                } else {
                    None
                }
            },
            None => None,
        }
    }

    /// Writes the digest in Base58.
    pub fn to_text(&self) -> (text: String)
        ensures
            text@ == base58_encoded(self.bytes@),
            digest_bytes(text@) == Some(self.bytes@),
    {
        base58_encode(&self.bytes)
    }
}

/// What is read out of a transaction body.
#[derive(Clone, Copy, Debug, PartialEq, Eq)]
pub struct ParsedTransaction {
    /// The digest of the transaction: a hash over its canonical serialization.
    pub digest: TransactionDigest,
    /// The sender named in the transaction.
    pub sender: Address,
}

/// `bcs::from_bytes` for an `iota_sdk_types::Transaction`, of which
/// `Transaction::digest` and the sender are kept. Trusted: whether the bytes
/// are accepted, and the digest and sender then returned, depend on the bytes
/// alone. `digest` serializes the transaction once more and panics should
/// that fail; a transaction that was just read from its serialization lies
/// within the limits that serializing checks.
#[verifier::external_body]
fn read_transaction(body: &[u8]) -> (r: Option<ParsedTransaction>)
    ensures
        r == ledger_transaction(body@),
{
    let transaction: Transaction = bcs::from_bytes(body).ok()?;
    let sender = transaction.as_opt_v1()?.sender;
    Some(
        ParsedTransaction {
            digest: TransactionDigest { bytes: transaction.digest().into_bytes() },
            sender: Address { bytes: sender.into_bytes() },
        },
    )
}

/// Reads a transaction out of its canonical serialization: its digest and its
/// sender. `None` where the bytes are no transaction. The same bytes always
/// give the same digest and the same sender.
pub fn parse_transaction(raw_bytes: &[u8]) -> (r: Option<ParsedTransaction>)
    ensures
        r == ledger_transaction(raw_bytes@),
{
    read_transaction(raw_bytes)
}

} // verus!
