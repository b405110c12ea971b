use std::collections::HashMap;

use tx_service::encoding::encode_envelope;
use tx_service::error::{InvalidInput, ServiceError, StoreError};
use tx_service::record::{AddTxResponse, TransactionRecord, TransactionResponse};
use tx_service::service::{
    add_duplicate_fetched, add_inserted, begin_add_at, begin_get, get_fetched, AfterInsert,
};

/// A store in memory that keeps to the rules, and counts how often it is asked.
struct MemoryStore {
    records: HashMap<String, TransactionRecord>,
    available: bool,
    accesses: usize,
}

impl MemoryStore {
    fn new() -> MemoryStore {
        MemoryStore { records: HashMap::new(), available: true, accesses: 0 }
    }

    fn insert(&mut self, record: &TransactionRecord) -> Result<(), StoreError> {
        self.accesses += 1;
        if !self.available {
            return Err(StoreError::Unavailable);
        }
        if self.records.contains_key(&record.digest) {
            return Err(StoreError::Conflict);
        }
        self.records.insert(record.digest.clone(), record.clone());
        Ok(())
    }

    fn get_by_digest(&mut self, digest: &str) -> Result<Option<TransactionRecord>, StoreError> {
        self.accesses += 1;
        if !self.available {
            return Err(StoreError::Unavailable);
        }
        Ok(self.records.get(digest).cloned())
    }
}

fn submit(
    store: &mut MemoryStore,
    envelope: &str,
    description: Option<String>,
    now: u64,
) -> Result<AddTxResponse, ServiceError> {
    let record = begin_add_at(envelope, description, now)?;
    let outcome = store.insert(&record);
    match add_inserted(&record, outcome) {
        AfterInsert::Respond(answer) => answer,
        AfterInsert::Lookup { digest } => {
            let fetched = store.get_by_digest(&digest);
            add_duplicate_fetched(digest, fetched)
        }
    }
}

fn retrieve(store: &mut MemoryStore, digest: &str) -> Result<TransactionResponse, ServiceError> {
    begin_get(digest)?;
    let fetched = store.get_by_digest(digest);
    get_fetched(fetched)
}

/// The serialization of a programmable transaction without inputs or
/// commands, written out byte by byte.
fn body(sender: u8, price: u64, budget: u64) -> Vec<u8> {
    let mut bytes = vec![0, 0, 0, 0];
    bytes.extend_from_slice(&[sender; 32]);
    bytes.push(0);
    bytes.extend_from_slice(&[sender; 32]);
    bytes.extend_from_slice(&price.to_le_bytes());
    bytes.extend_from_slice(&budget.to_le_bytes());
    bytes.push(0);
    bytes
}

const ENVELOPE: &str = "AAAAAKurq6urq6urq6urq6urq6urq6urq6urq6urq6urq6urAKurq6urq6urq6urq6urq6urq6urq6urq6urq6urq6ur6AMAAAAAAABAQg8AAAAAAAA=";
const DIGEST: &str = "5tPHdSgLcq3cfqfuR6LvwjkGXhvmanfX4y3XQmEuGuNy";
const SENDER: &str = "0xabababababababababababababababababababababababababababababababab";

#[test]
fn submitted_transaction_reads_back() {
    let mut store = MemoryStore::new();
    let added = submit(&mut store, ENVELOPE, None, 1_750_000_000).unwrap();
    assert_eq!(added, AddTxResponse { digest: DIGEST.to_string(), added_at: 1_750_000_000 });
    let shown = retrieve(&mut store, DIGEST).unwrap();
    assert_eq!(
        shown,
        TransactionResponse {
            bcs: ENVELOPE.to_string(),
            sender: SENDER.to_string(),
            added_at: 1_750_000_000,
            description: None,
        }
    );
}

#[test]
fn every_submitted_body_reads_back_as_its_envelope() {
    let mut store = MemoryStore::new();
    for price in 0..40u64 {
        let envelope = encode_envelope(&body(price as u8, price, 7 * price + 1));
        let added = submit(&mut store, &envelope, Some(format!("price {}", price)), price).unwrap();
        let shown = retrieve(&mut store, &added.digest).unwrap();
        assert_eq!(shown.bcs, envelope);
        assert_eq!(shown.added_at, price);
        assert_eq!(shown.description, Some(format!("price {}", price)));
    }
    assert_eq!(store.records.len(), 40);
}

#[test]
fn submitting_again_keeps_the_first_record() {
    let mut store = MemoryStore::new();
    let first = submit(&mut store, ENVELOPE, Some("first".to_string()), 100).unwrap();
    let second = submit(&mut store, ENVELOPE, Some("second".to_string()), 200).unwrap();
    assert_eq!(second, first);
    assert_eq!(second.added_at, 100);
    assert_eq!(store.records.len(), 1);
    let shown = retrieve(&mut store, &first.digest).unwrap();
    assert_eq!(shown.added_at, 100);
    assert_eq!(shown.description, Some("first".to_string()));
}

#[test]
fn submitting_again_to_a_store_that_went_away_changes_nothing() {
    let mut store = MemoryStore::new();
    let first = submit(&mut store, ENVELOPE, None, 100).unwrap();
    store.available = false;
    assert_eq!(submit(&mut store, ENVELOPE, None, 200), Err(ServiceError::StorageUnavailable));
    store.available = true;
    assert_eq!(store.records.len(), 1);
    assert_eq!(retrieve(&mut store, &first.digest).unwrap().added_at, 100);
}

#[test]
fn same_body_has_the_same_digest_in_every_store() {
    let mut one = MemoryStore::new();
    let mut other = MemoryStore::new();
    submit(&mut other, &encode_envelope(&body(9, 9, 9)), None, 1).unwrap();
    let first = submit(&mut one, ENVELOPE, Some("a".to_string()), 10).unwrap();
    let second = submit(&mut other, ENVELOPE, None, 20).unwrap();
    assert_eq!(first.digest, second.digest);
    assert_eq!(first.digest, DIGEST);
}

#[test]
fn bad_envelope_never_reaches_the_store() {
    let mut store = MemoryStore::new();
    assert_eq!(
        submit(&mut store, "AAAB...", None, 1),
        Err(ServiceError::InvalidInput(InvalidInput::Envelope))
    );
    assert_eq!(store.accesses, 0);
}

#[test]
fn body_that_is_no_transaction_never_reaches_the_store() {
    let mut store = MemoryStore::new();
    assert_eq!(
        submit(&mut store, "AAAB", None, 1),
        Err(ServiceError::InvalidInput(InvalidInput::Transaction))
    );
    assert_eq!(store.accesses, 0);
    assert!(store.records.is_empty());
}

#[test]
fn submission_to_a_store_that_cannot_be_reached_fails() {
    let mut store = MemoryStore::new();
    store.available = false;
    assert_eq!(submit(&mut store, ENVELOPE, None, 1), Err(ServiceError::StorageUnavailable));
    assert!(store.records.is_empty());
}

#[test]
fn unknown_digest_is_reported_as_not_found() {
    let mut store = MemoryStore::new();
    submit(&mut store, ENVELOPE, None, 1).unwrap();
    assert_eq!(
        retrieve(&mut store, "4vJ9JU1bJJE96FWSJKvHsmmFADCg4gpZQff4P3bkLKi"),
        Err(ServiceError::NotFound)
    );
    assert_eq!(
        retrieve(&mut store, "11111111111111111111111111111111"),
        Err(ServiceError::NotFound)
    );
}

#[test]
fn malformed_digest_never_reaches_the_store() {
    let mut store = MemoryStore::new();
    for text in ["", "0xdef", "1111", "5tPHdSgLcq3cfqfuR6LvwjkGXhvmanfX4y3XQmEuGuN0", SENDER] {
        assert_eq!(
            retrieve(&mut store, text),
            Err(ServiceError::InvalidInput(InvalidInput::Digest))
        );
    }
    assert_eq!(store.accesses, 0);
    store.available = false;
    assert_eq!(
        retrieve(&mut store, "not a digest"),
        Err(ServiceError::InvalidInput(InvalidInput::Digest))
    );
    assert_eq!(store.accesses, 0);
}

#[test]
fn retrieval_from_a_store_that_cannot_be_reached_fails() {
    let mut store = MemoryStore::new();
    let added = submit(&mut store, ENVELOPE, None, 1).unwrap();
    store.available = false;
    assert_eq!(retrieve(&mut store, &added.digest), Err(ServiceError::StorageUnavailable));
}

#[test]
fn record_with_a_corrupt_sender_is_reported() {
    let mut store = MemoryStore::new();
    let added = submit(&mut store, ENVELOPE, None, 1).unwrap();
    store.records.get_mut(&added.digest).unwrap().sender = "0xab".to_string();
    assert_eq!(retrieve(&mut store, &added.digest), Err(ServiceError::CorruptRecord));
}
