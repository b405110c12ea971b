use tx_service::error::{InvalidInput, ServiceError, StoreError};
use tx_service::ledger::{Address, ParsedTransaction, TransactionDigest};
use tx_service::record::{AddTxResponse, TransactionRecord, TransactionResponse};
use tx_service::service::{
    add_duplicate_fetched, add_inserted, begin_add, begin_add_at, begin_get, get_fetched,
    AfterInsert,
};

const ENVELOPE: &str = "AAAAAKurq6urq6urq6urq6urq6urq6urq6urq6urq6urq6urAKurq6urq6urq6urq6urq6urq6urq6urq6urq6urq6ur6AMAAAAAAABAQg8AAAAAAAA=";
const DIGEST: &str = "5tPHdSgLcq3cfqfuR6LvwjkGXhvmanfX4y3XQmEuGuNy";
const SENDER: &str = "0xabababababababababababababababababababababababababababababababab";

/// The body inside `ENVELOPE`: a programmable transaction without inputs or
/// commands, sent by `SENDER` at a gas price of 1000 and a budget of 1000000.
fn body() -> Vec<u8> {
    let mut bytes = vec![0, 0, 0, 0];
    bytes.extend_from_slice(&[0xab; 32]);
    bytes.push(0);
    bytes.extend_from_slice(&[0xab; 32]);
    bytes.extend_from_slice(&1000u64.to_le_bytes());
    bytes.extend_from_slice(&1_000_000u64.to_le_bytes());
    bytes.push(0);
    bytes
}

fn stored(added_at: u64) -> TransactionRecord {
    TransactionRecord {
        digest: DIGEST.to_string(),
        raw_bytes: body(),
        sender: SENDER.to_string(),
        description: Some("first".to_string()),
        added_at,
    }
}

#[test]
fn record_is_made_of_what_was_read() {
    let parsed = ParsedTransaction {
        digest: TransactionDigest { bytes: [1; 32] },
        sender: Address { bytes: [0xab; 32] },
    };
    assert_eq!(
        TransactionRecord::new(vec![0, 0, 1], parsed, Some("note".to_string()), 12),
        TransactionRecord {
            digest: "4vJ9JU1bJJE96FWSJKvHsmmFADCg4gpZQff4P3bkLKi".to_string(),
            raw_bytes: vec![0, 0, 1],
            sender: SENDER.to_string(),
            description: Some("note".to_string()),
            added_at: 12,
        }
    );
}

#[test]
fn begin_add_at_makes_the_record() {
    assert_eq!(
        begin_add_at(ENVELOPE, Some("first".to_string()), 1_700_000_000),
        Ok(stored(1_700_000_000))
    );
}

#[test]
fn begin_add_at_keeps_a_missing_description_missing() {
    let record = begin_add_at(ENVELOPE, None, 0).unwrap();
    assert_eq!(record.description, None);
    assert_eq!(record.raw_bytes, body());
    assert_eq!(record.added_at, 0);
    assert_eq!(record.digest, DIGEST);
    assert_eq!(record.sender, SENDER);
}

#[test]
fn begin_add_at_turns_down_a_bad_envelope() {
    let refused = Err(ServiceError::InvalidInput(InvalidInput::Envelope));
    assert_eq!(begin_add_at("AAA", None, 1), refused);
    assert_eq!(begin_add_at("not base64", None, 1), refused);
    assert_eq!(begin_add_at("AAAB...", None, 1), refused);
    assert_eq!(begin_add_at(&ENVELOPE[..ENVELOPE.len() - 1], None, 1), refused);
}

#[test]
fn begin_add_at_turns_down_a_body_that_is_no_transaction() {
    let refused = Err(ServiceError::InvalidInput(InvalidInput::Transaction));
    assert_eq!(begin_add_at("AAAB", None, 1), refused);
    assert_eq!(begin_add_at("", Some("x".to_string()), 1), refused);
    assert_eq!(begin_add_at("SGVsbG8gd29ybGQh", None, 1), refused);
}

#[test]
fn begin_add_stamps_the_current_second() {
    let before = std::time::SystemTime::now()
        .duration_since(std::time::UNIX_EPOCH)
        .unwrap()
        .as_secs();
    let record = begin_add(ENVELOPE, None).unwrap();
    let after = std::time::SystemTime::now()
        .duration_since(std::time::UNIX_EPOCH)
        .unwrap()
        .as_secs();
    assert!(before <= record.added_at && record.added_at <= after);
    assert_eq!(record.digest, DIGEST);
    assert_eq!(record.sender, SENDER);
    assert_eq!(record.raw_bytes, body());
    assert_eq!(record.description, None);
}

#[test]
fn begin_add_turns_down_what_begin_add_at_turns_down() {
    assert_eq!(begin_add("AAA", None), Err(ServiceError::InvalidInput(InvalidInput::Envelope)));
    assert_eq!(
        begin_add("AAAB", None),
        Err(ServiceError::InvalidInput(InvalidInput::Transaction))
    );
}

#[test]
fn add_inserted_answers_a_stored_record() {
    assert_eq!(
        add_inserted(&stored(42), Ok(())),
        AfterInsert::Respond(Ok(AddTxResponse { digest: DIGEST.to_string(), added_at: 42 }))
    );
}

#[test]
fn add_inserted_looks_a_duplicate_up() {
    assert_eq!(
        add_inserted(&stored(42), Err(StoreError::Conflict)),
        AfterInsert::Lookup { digest: DIGEST.to_string() }
    );
}

#[test]
fn add_inserted_reports_a_store_that_cannot_be_reached() {
    assert_eq!(
        add_inserted(&stored(42), Err(StoreError::Unavailable)),
        AfterInsert::Respond(Err(ServiceError::StorageUnavailable))
    );
}

#[test]
fn add_duplicate_fetched_answers_with_the_first_time() {
    assert_eq!(
        add_duplicate_fetched(DIGEST.to_string(), Ok(Some(stored(17)))),
        Ok(AddTxResponse { digest: DIGEST.to_string(), added_at: 17 })
    );
}

#[test]
fn add_duplicate_fetched_reports_a_store_that_failed() {
    assert_eq!(
        add_duplicate_fetched(DIGEST.to_string(), Ok(None)),
        Err(ServiceError::StorageUnavailable)
    );
    assert_eq!(
        add_duplicate_fetched(DIGEST.to_string(), Err(StoreError::Unavailable)),
        Err(ServiceError::StorageUnavailable)
    );
    assert_eq!(
        add_duplicate_fetched(DIGEST.to_string(), Err(StoreError::Conflict)),
        Err(ServiceError::StorageUnavailable)
    );
}

#[test]
fn begin_get_lets_a_digest_through() {
    assert_eq!(begin_get(DIGEST), Ok(()));
    assert_eq!(begin_get("11111111111111111111111111111111"), Ok(()));
}

#[test]
fn begin_get_turns_down_what_spells_no_digest() {
    let refused = Err(ServiceError::InvalidInput(InvalidInput::Digest));
    assert_eq!(begin_get(""), refused);
    assert_eq!(begin_get("0xdef"), refused);
    assert_eq!(begin_get("1111111111111111111111111111111"), refused);
    assert_eq!(begin_get("5tPHdSgLcq3cfqfuR6LvwjkGXhvmanfX4y3XQmEuGuN0"), refused);
    assert_eq!(begin_get(SENDER), refused);
}

#[test]
fn get_fetched_shows_the_record() {
    assert_eq!(
        get_fetched(Ok(Some(stored(1_700_000_000)))),
        Ok(TransactionResponse {
            bcs: ENVELOPE.to_string(),
            sender: SENDER.to_string(),
            added_at: 1_700_000_000,
            description: Some("first".to_string()),
        })
    );
}

#[test]
fn get_fetched_writes_the_sender_in_its_one_form() {
    let mut record = stored(3);
    record.sender = "ABABABABABABABABABABABABABABABABABABABABABABABABABABABABABABABAB".to_string();
    record.description = None;
    let shown = get_fetched(Ok(Some(record))).unwrap();
    assert_eq!(shown.sender, SENDER);
    assert_eq!(shown.description, None);
}

#[test]
fn get_fetched_reports_an_unknown_digest() {
    assert_eq!(get_fetched(Ok(None)), Err(ServiceError::NotFound));
}

#[test]
fn get_fetched_reports_a_store_that_cannot_be_reached() {
    assert_eq!(get_fetched(Err(StoreError::Unavailable)), Err(ServiceError::StorageUnavailable));
    assert_eq!(get_fetched(Err(StoreError::Conflict)), Err(ServiceError::StorageUnavailable));
}

#[test]
fn get_fetched_reports_a_corrupt_sender() {
    let mut record = stored(3);
    record.sender = "0xabc".to_string();
    assert_eq!(get_fetched(Ok(Some(record))), Err(ServiceError::CorruptRecord));
    let mut record = stored(3);
    record.sender = String::new();
    assert_eq!(get_fetched(Ok(Some(record))), Err(ServiceError::CorruptRecord));
    let mut record = stored(3);
    record.sender = DIGEST.to_string();
    assert_eq!(get_fetched(Ok(Some(record))), Err(ServiceError::CorruptRecord));
}
