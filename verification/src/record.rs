//! The record kept for each transaction, and what the service answers with.
//!
//! Each executable type has a view in which texts are sequences of characters
//! and bodies are sequences of bytes. The contracts of the service are stated
//! over these views.

use crate::encoding::{base58_encoded, prefixed_hex};
use crate::error::ServiceError;
use crate::ledger::{is_address_text, is_digest_text, ParsedTransaction};
use vstd::prelude::*;

verus! {

/// The view of an optional text.
pub open spec fn text_view(text: Option<String>) -> Option<Seq<char>> {
    match text {
        Some(t) => Some(t@),
        None => None,
    }
}

/// The persisted unit: one transaction under its digest.
#[derive(Clone, Debug, PartialEq, Eq)]
pub struct TransactionRecord {
    /// The digest in Base58, the key under which the record is stored.
    pub digest: String,
    /// The canonical binary body of the transaction.
    pub raw_bytes: Vec<u8>,
    /// The sender's address in hexadecimal.
    pub sender: String,
    /// The caller's annotation, if any.
    pub description: Option<String>,
    /// The second since the Unix epoch at which the record was first stored.
    pub added_at: u64,
}

/// The view of a `TransactionRecord`.
pub struct RecordView {
    pub digest: Seq<char>,
    pub raw_bytes: Seq<u8>,
    pub sender: Seq<char>,
    pub description: Option<Seq<char>>,
    pub added_at: u64,
}

impl RecordView {
    /// What holds of every record that the service hands to the store: its
    /// key spells a digest and its sender spells an address.
    pub open spec fn well_formed(self) -> bool {
        is_digest_text(self.digest) && is_address_text(self.sender)
    }
}

impl View for TransactionRecord {
    type V = RecordView;

    open spec fn view(&self) -> RecordView {
        RecordView {
            digest: self.digest@,
            raw_bytes: self.raw_bytes@,
            sender: self.sender@,
            description: text_view(self.description),
            added_at: self.added_at,
        }
    }
}

/// The record of a transaction that was read out of `raw_bytes`, stored at
/// `now`. Its key is the Base58 text of the digest and its sender the
/// hexadecimal text of the sender's address.
pub open spec fn record_of(
    raw_bytes: Seq<u8>,
    parsed: ParsedTransaction,
    description: Option<Seq<char>>,
    now: u64,
) -> RecordView {
    RecordView {
        digest: base58_encoded(parsed.digest.bytes@),
        raw_bytes,
        sender: prefixed_hex(parsed.sender.bytes@),
        description,
        added_at: now,
    }
}

impl TransactionRecord {
    /// The record of a transaction that was read out of `raw_bytes`, stored at
    /// `now`.
    pub fn new(
        raw_bytes: Vec<u8>,
        parsed: ParsedTransaction,
        description: Option<String>,
        now: u64,
    ) -> (record: TransactionRecord)
        ensures
            record@ == record_of(raw_bytes@, parsed, text_view(description), now),
            record@.well_formed(),
    {
        TransactionRecord {
            digest: parsed.digest.to_text(),
            raw_bytes,
            sender: parsed.sender.to_text(),
            description,
            added_at: now,
        }
    }
}

/// The answer to a submission.
#[derive(Clone, Debug, PartialEq, Eq)]
pub struct AddTxResponse {
    /// The digest of the transaction in Base58.
    pub digest: String,
    /// The second at which the transaction was first stored.
    pub added_at: u64,
}

/// The view of an `AddTxResponse`.
pub struct AddTxResponseView {
    pub digest: Seq<char>,
    pub added_at: u64,
}

impl View for AddTxResponse {
    type V = AddTxResponseView;

    open spec fn view(&self) -> AddTxResponseView {
        AddTxResponseView { digest: self.digest@, added_at: self.added_at }
    }
}

/// The answer to a retrieval.
#[derive(Clone, Debug, PartialEq, Eq)]
pub struct TransactionResponse {
    /// The body of the transaction in Base64.
    pub bcs: String,
    /// The sender's address as `0x` and 64 lower-case hexadecimal digits.
    pub sender: String,
    /// The second at which the transaction was first stored.
    pub added_at: u64,
    /// The annotation stored with the transaction, if any.
    pub description: Option<String>,
}

/// The view of a `TransactionResponse`.
pub struct TransactionResponseView {
    pub bcs: Seq<char>,
    pub sender: Seq<char>,
    pub added_at: u64,
    pub description: Option<Seq<char>>,
}

impl View for TransactionResponse {
    type V = TransactionResponseView;

    open spec fn view(&self) -> TransactionResponseView {
        TransactionResponseView {
            bcs: self.bcs@,
            sender: self.sender@,
            added_at: self.added_at,
            description: text_view(self.description),
        }
    }
}

/// The view of a record or the error that took its place.
pub open spec fn record_view(r: Result<TransactionRecord, ServiceError>) -> Result<
    RecordView,
    ServiceError,
> {
    match r {
        Ok(record) => Ok(record@),
        Err(e) => Err(e),
    }
}

/// The view of the answer to a submission.
pub open spec fn added_view(r: Result<AddTxResponse, ServiceError>) -> Result<
    AddTxResponseView,
    ServiceError,
> {
    match r {
        Ok(response) => Ok(response@),
        Err(e) => Err(e),
    }
}

/// The view of the answer to a retrieval.
pub open spec fn retrieved_view(r: Result<TransactionResponse, ServiceError>) -> Result<
    TransactionResponseView,
    ServiceError,
> {
    match r {
        Ok(response) => Ok(response@),
        Err(e) => Err(e),
    }
}

} // verus!
