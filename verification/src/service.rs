//! The transaction service: submitting a transaction and reading it back.
//!
//! Neither operation touches the store. Each is cut into steps at the points
//! where the store has to be asked. A step takes what the service knows so far
//! together with the answer it was waiting for, and says what to ask next or
//! what to tell the caller.
//!
//! Submitting runs `begin_add`, an insert, `add_inserted` and, for a
//! transaction that was stored before, a fetch and `add_duplicate_fetched`.
//! Reading back runs `begin_get`, a fetch and `get_fetched`.
//!
//! A transaction that is submitted again is no error. The store turns the
//! second insert down, the record of the first stays as it is, and the caller
//! is told the second at which the first was stored.

use crate::clock::unix_seconds;
use crate::encoding::{
    base64_decoded, base64_encoded, decode_envelope, encode_envelope, prefixed_hex,
};
use crate::error::{InvalidInput, ServiceError, StoreError};
use crate::gateway::fetched_view;
use crate::ledger::{
    address_bytes, is_digest_text, ledger_transaction, parse_transaction, Address,
    ParsedTransaction, TransactionDigest,
};
use crate::record::{
    added_view, record_of, record_view, retrieved_view, text_view, AddTxResponse,
    AddTxResponseView, RecordView, TransactionRecord, TransactionResponse,
    TransactionResponseView,
};
use vstd::prelude::*;

verus! {

/// What to do once the store has answered an insert.
#[derive(Debug, PartialEq, Eq)]
pub enum AfterInsert {
    /// Tell the caller.
    Respond(Result<AddTxResponse, ServiceError>),
    /// The transaction was stored before: fetch its record under `digest`.
    Lookup { digest: String },
}

/// The view of an `AfterInsert`.
pub enum AfterInsertView {
    Respond(Result<AddTxResponseView, ServiceError>),
    Lookup { digest: Seq<char> },
}

impl View for AfterInsert {
    type V = AfterInsertView;

    open spec fn view(&self) -> AfterInsertView {
        match self {
            AfterInsert::Respond(r) => AfterInsertView::Respond(added_view(*r)),
            AfterInsert::Lookup { digest } => AfterInsertView::Lookup { digest: digest@ },
        }
    }
}

/// The body in an envelope together with the transaction that was read out
/// of it. An envelope that is not Base64 is turned down, and so is a body that
/// is no transaction.
pub open spec fn read_submission(envelope: Seq<char>) -> Result<
    (Seq<u8>, ParsedTransaction),
    ServiceError,
> {
    match base64_decoded(envelope) {
        None => Err(ServiceError::InvalidInput(InvalidInput::Envelope)),
        Some(body) => match ledger_transaction(body) {
            None => Err(ServiceError::InvalidInput(InvalidInput::Transaction)),
            Some(parsed) => Ok((body, parsed)),
        },
    }
}

/// The record to insert for a submission at `now`.
pub open spec fn prepared_submission(
    envelope: Seq<char>,
    description: Option<Seq<char>>,
    now: u64,
) -> Result<RecordView, ServiceError> {
    match read_submission(envelope) {
        Ok((body, parsed)) => Ok(record_of(body, parsed, description, now)),
        Err(e) => Err(e),
    }
}

/// The second that a prepared record carries; zero where none was prepared.
pub open spec fn stamp_of(r: Result<TransactionRecord, ServiceError>) -> u64 {
    match r {
        Ok(record) => record.added_at,
        Err(_) => 0,
    }
}

/// What follows the store's answer to the insert of `record`.
pub open spec fn after_insert(record: RecordView, outcome: Result<(), StoreError>) -> AfterInsertView {
    match outcome {
        Ok(()) => AfterInsertView::Respond(
            Ok(AddTxResponseView { digest: record.digest, added_at: record.added_at }),
        ),
        Err(StoreError::Conflict) => AfterInsertView::Lookup { digest: record.digest },
        Err(StoreError::Unavailable) => AfterInsertView::Respond(
            Err(ServiceError::StorageUnavailable),
        ),
    }
}

/// The answer to a submission whose transaction was stored before, given what
/// the store returned for its digest. The caller is told when it was first
/// stored. A store that reported a conflict and then knows no record has
/// failed.
pub open spec fn after_duplicate(
    digest: Seq<char>,
    fetched: Result<Option<RecordView>, StoreError>,
) -> Result<AddTxResponseView, ServiceError> {
    match fetched {
        Ok(Some(stored)) => Ok(AddTxResponseView { digest, added_at: stored.added_at }),
        Ok(None) => Err(ServiceError::StorageUnavailable),
        Err(_) => Err(ServiceError::StorageUnavailable),
    }
}

/// Whether a fetch may be made for `digest`: only a text that spells a digest
/// reaches the store.
pub open spec fn checked_digest(digest: Seq<char>) -> Result<(), ServiceError> {
    if is_digest_text(digest) {
        Ok(())
    } else {
        Err(ServiceError::InvalidInput(InvalidInput::Digest))
    }
}

/// What is shown of a stored record whose sender spells an address: the body
/// in Base64 and the sender in its written form.
pub open spec fn response_of(record: RecordView) -> TransactionResponseView {
    TransactionResponseView {
        bcs: base64_encoded(record.raw_bytes),
        sender: prefixed_hex(address_bytes(record.sender).unwrap()),
        added_at: record.added_at,
        description: record.description,
    }
}

/// The answer to a retrieval, given what the store returned.
pub open spec fn after_fetch(fetched: Result<Option<RecordView>, StoreError>) -> Result<
    TransactionResponseView,
    ServiceError,
> {
    match fetched {
        Ok(Some(record)) => if address_bytes(record.sender) is Some {
            Ok(response_of(record))
        } else {
            Err(ServiceError::CorruptRecord)
        },
        Ok(None) => Err(ServiceError::NotFound),
        Err(_) => Err(ServiceError::StorageUnavailable),
    }
}

/// Takes the body out of its envelope and reads the transaction in it.
fn open_envelope(envelope: &str) -> (r: Result<(Vec<u8>, ParsedTransaction), ServiceError>)
    ensures
        match r {
            Ok((body, parsed)) => read_submission(envelope@) == Ok::<_, ServiceError>(
                (body@, parsed),
            ),
            Err(e) => read_submission(envelope@) == Err::<(Seq<u8>, ParsedTransaction), _>(e),
        },
{
    match decode_envelope(envelope) {
        None => Err(ServiceError::InvalidInput(InvalidInput::Envelope)),
        Some(body) => match parse_transaction(body.as_slice()) {
            None => Err(ServiceError::InvalidInput(InvalidInput::Transaction)),
            Some(parsed) => Ok((body, parsed)),
        },
    }
}

/// First step of a submission, at a given second: takes the body out of its
/// envelope, reads the transaction in it and makes its record.
pub fn begin_add_at(envelope: &str, description: Option<String>, now: u64) -> (r: Result<
    TransactionRecord,
    ServiceError,
>)
    ensures
        record_view(r) == prepared_submission(envelope@, text_view(description), now),
        r matches Ok(record) ==> record@.well_formed(),
{
    match open_envelope(envelope) {
        Ok((body, parsed)) => Ok(TransactionRecord::new(body, parsed, description, now)),
        Err(e) => Err(e),
    }
}

/// First step of a submission: `begin_add_at` at the second that the clock
/// shows once the transaction has been read. On `Ok` the record goes to the
/// store, and the store's answer goes to `add_inserted`.
pub fn begin_add(envelope: &str, description: Option<String>) -> (r: Result<
    TransactionRecord,
    ServiceError,
>)
    ensures
        record_view(r) == prepared_submission(envelope@, text_view(description), stamp_of(r)),
        r matches Ok(record) ==> record@.well_formed(),
{
    match open_envelope(envelope) {
        Ok((body, parsed)) => {
            let seconds: i64 = unix_seconds();
            Ok(TransactionRecord::new(body, parsed, description, seconds as u64))
        },
        Err(e) => Err(e),
    }
}

/// Second step of a submission: reads the store's answer to the insert of
/// `record`.
pub fn add_inserted(record: &TransactionRecord, outcome: Result<(), StoreError>) -> (next:
    AfterInsert)
    ensures
        next@ == after_insert(record@, outcome),
{
    match outcome {
        Ok(()) => AfterInsert::Respond(
            Ok(AddTxResponse { digest: record.digest.clone(), added_at: record.added_at }),
        ),
        Err(StoreError::Conflict) => AfterInsert::Lookup { digest: record.digest.clone() },
        Err(StoreError::Unavailable) => AfterInsert::Respond(Err(ServiceError::StorageUnavailable)),
    }
}

/// Last step of a submission whose transaction was stored before: reads what
/// the store returned for `digest`.
pub fn add_duplicate_fetched(
    digest: String,
    fetched: Result<Option<TransactionRecord>, StoreError>,
) -> (r: Result<AddTxResponse, ServiceError>)
    ensures
        added_view(r) == after_duplicate(digest@, fetched_view(fetched)),
{
    match fetched {
        Ok(Some(stored)) => Ok(AddTxResponse { digest, added_at: stored.added_at }),
        Ok(None) => Err(ServiceError::StorageUnavailable),
        Err(_) => Err(ServiceError::StorageUnavailable),
    }
}

/// First step of a retrieval: checks the digest before anything is asked of
/// the store. On `Ok` the record is fetched under the text as it was given,
/// and the store's answer goes to `get_fetched`.
pub fn begin_get(digest: &str) -> (r: Result<(), ServiceError>)
    ensures
        r == checked_digest(digest@),
{
    match TransactionDigest::from_text(digest) {
        Some(_) => Ok(()),
        None => Err(ServiceError::InvalidInput(InvalidInput::Digest)),
    }
}

/// Last step of a retrieval: reads what the store returned. The body of a
/// record that is shown must be short enough for the Base64 encoder.
pub fn get_fetched(fetched: Result<Option<TransactionRecord>, StoreError>) -> (r: Result<
    TransactionResponse,
    ServiceError,
>)
    requires
        fetched matches Ok(Some(record)) ==> record.raw_bytes@.len() <= usize::MAX / 4,
    ensures
        retrieved_view(r) == after_fetch(fetched_view(fetched)),
{
    match fetched {
        Ok(Some(record)) => {
            match Address::from_text(record.sender.as_str()) {
                Some(sender) => Ok(
                    TransactionResponse {
                        bcs: encode_envelope(record.raw_bytes.as_slice()),
                        sender: sender.to_text(),
                        added_at: record.added_at,
                        description: record.description,
                    },
                ),
                None => Err(ServiceError::CorruptRecord),
            }
        },
        Ok(None) => Err(ServiceError::NotFound),
        Err(_) => Err(ServiceError::StorageUnavailable),
    }
}

} // verus!
