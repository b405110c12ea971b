//! What the service guarantees, proved.
//!
//! The operations are run here from end to end, against a store that keeps to
//! the rules of `GatewayModel` and against whatever the ledger node reports.
//! Each run is the composition of the service's steps, with nothing added.

use crate::api::status_of;
use crate::authenticator::{derived_object, OwnershipInfo, SharedObjectView};
use crate::encoding::{
    base58_encoded, base64_decoded, is_envelope_of, lemma_prefixed_hex_decodes, prefixed_hex,
};
use crate::error::{
    InvalidInput, OracleError, ServiceError, STATUS_BAD_REQUEST, STATUS_NOT_FOUND, STATUS_OK,
    STATUS_SERVER_ERROR,
};
use crate::gateway::GatewayModel;
use crate::ledger::{
    address_bytes, is_address_text, is_digest_text, ledger_transaction, ParsedTransaction,
};
use crate::record::{AddTxResponseView, TransactionResponseView};
use crate::service::{
    after_duplicate, after_fetch, after_insert, checked_digest, prepared_submission,
    response_of, AfterInsertView,
};
use vstd::prelude::*;

verus! {

/// A submission from end to end: the store afterwards and the answer to the
/// caller.
pub open spec fn submit(
    gateway: GatewayModel,
    envelope: Seq<char>,
    description: Option<Seq<char>>,
    now: u64,
) -> (GatewayModel, Result<AddTxResponseView, ServiceError>) {
    match prepared_submission(envelope, description, now) {
        Err(e) => (gateway, Err(e)),
        Ok(record) => {
            let after = gateway.after_insert(record);
            match after_insert(record, gateway.insert_outcome(record)) {
                AfterInsertView::Respond(answer) => (after, answer),
                AfterInsertView::Lookup { digest } => (
                    after,
                    after_duplicate(digest, after.get_by_digest(digest)),
                ),
            }
        },
    }
}

/// A retrieval from end to end. The store is asked only for a text that
/// spells a digest.
pub open spec fn retrieve(gateway: GatewayModel, digest: Seq<char>) -> Result<
    TransactionResponseView,
    ServiceError,
> {
    match checked_digest(digest) {
        Err(e) => Err(e),
        Ok(()) => after_fetch(gateway.get_by_digest(digest)),
    }
}

/// A derivation from end to end. `oracle` is what the ledger node reports of
/// the object at an address; it is asked only for a text that spells one.
pub open spec fn derive(
    oracle: spec_fn(Seq<u8>) -> Result<OwnershipInfo, OracleError>,
    address: Seq<char>,
) -> Result<SharedObjectView, ServiceError> {
    match address_bytes(address) {
        None => Err(ServiceError::InvalidInput(InvalidInput::Address)),
        Some(id) => derived_object(id, oracle(id)),
    }
}

/// The same body always has the same digest and the same sender: reading a
/// body twice gives one answer.
pub proof fn lemma_digest_is_deterministic(
    body: Seq<u8>,
    first: Option<ParsedTransaction>,
    second: Option<ParsedTransaction>,
)
    requires
        first == ledger_transaction(body),
        second == ledger_transaction(body),
    ensures
        first == second,
        first matches Some(parsed) ==> second.unwrap().digest == parsed.digest
            && second.unwrap().sender == parsed.sender,
{
}

/// A submission succeeds exactly where the envelope is Base64, its body is a
/// transaction and the store can be reached. Each failure has one cause, and
/// a submission that fails leaves the store untouched.
pub proof fn lemma_submit_outcome(
    gateway: GatewayModel,
    envelope: Seq<char>,
    description: Option<Seq<char>>,
    now: u64,
)
    ensures
        ({
            let (after, answer) = submit(gateway, envelope, description, now);
            match base64_decoded(envelope) {
                None => answer == Err::<AddTxResponseView, _>(
                    ServiceError::InvalidInput(InvalidInput::Envelope),
                ) && after == gateway,
                Some(body) => match ledger_transaction(body) {
                    None => answer == Err::<AddTxResponseView, _>(
                        ServiceError::InvalidInput(InvalidInput::Transaction),
                    ) && after == gateway,
                    Some(parsed) => if gateway.available {
                        answer matches Ok(added) && added.digest == base58_encoded(
                            parsed.digest.bytes@,
                        )
                    } else {
                        answer == Err::<AddTxResponseView, _>(ServiceError::StorageUnavailable)
                            && after == gateway
                    },
                },
            }
        }),
{
}

/// The digest that a submission returns depends on the envelope alone: not
/// on the store, the description or the time.
pub proof fn lemma_digest_depends_on_envelope_alone(
    envelope: Seq<char>,
    gateway1: GatewayModel,
    description1: Option<Seq<char>>,
    now1: u64,
    gateway2: GatewayModel,
    description2: Option<Seq<char>>,
    now2: u64,
)
    ensures
        ({
            let first = submit(gateway1, envelope, description1, now1).1;
            let second = submit(gateway2, envelope, description2, now2).1;
            first is Ok && second is Ok ==> first.unwrap().digest == second.unwrap().digest
        }),
{
}

/// A transaction that was submitted in its envelope reads back under the
/// digest that the submission returned, and the body shown is the envelope
/// that was submitted. The envelope is one that the encoder wrote for the
/// body, the record is well formed as every record of `TransactionRecord::new`
/// is, and the store can be reached. The last hypothesis leaves out a store
/// that already holds another body, or a corrupt record, under the same
/// digest.
pub proof fn lemma_submitted_body_reads_back(
    gateway: GatewayModel,
    envelope: Seq<char>,
    body: Seq<u8>,
    description: Option<Seq<char>>,
    now: u64,
)
    requires
        is_envelope_of(envelope, body),
        prepared_submission(envelope, description, now) matches Ok(record)
            && record.well_formed(),
        gateway.available,
        ({
            let key = prepared_submission(envelope, description, now).unwrap().digest;
            gateway.holds(key) ==> gateway.records[key].raw_bytes == body && is_address_text(
                gateway.records[key].sender,
            )
        }),
    ensures
        ({
            let (after, answer) = submit(gateway, envelope, description, now);
            &&& answer matches Ok(added)
            &&& retrieve(after, added.digest) matches Ok(shown)
            &&& shown.bcs == envelope
            &&& shown.added_at == added.added_at
            &&& !gateway.holds(added.digest) ==> shown == TransactionResponseView {
                bcs: envelope,
                sender: prefixed_hex(ledger_transaction(body).unwrap().sender.bytes@),
                added_at: now,
                description,
            }
        }),
{
    let parsed = ledger_transaction(body).unwrap();
    lemma_prefixed_hex_decodes(parsed.sender.bytes@);
}

/// Submitting a transaction again neither adds a record nor changes one, and
/// where both submissions are answered the answers are the same: the same
/// digest, and the second at which the transaction was first stored. This
/// holds whatever the second description and time are, and whether or not
/// the store can still be reached.
pub proof fn lemma_resubmission_changes_nothing(
    gateway: GatewayModel,
    envelope: Seq<char>,
    description1: Option<Seq<char>>,
    now1: u64,
    description2: Option<Seq<char>>,
    now2: u64,
    still_available: bool,
)
    ensures
        ({
            let (stored, first) = submit(gateway, envelope, description1, now1);
            let (after, second) = submit(
                stored.reachable(still_available),
                envelope,
                description2,
                now2,
            );
            first is Ok ==> {
                &&& after.records == stored.records
                &&& second is Ok ==> second == first
                &&& second is Ok <==> still_available
            }
        }),
{
}

/// No submission changes or removes a record that is already stored, so the
/// time at which a transaction was first stored is never rewritten. Every
/// record that a submission adds is stored under its own digest.
pub proof fn lemma_stored_records_are_kept(
    gateway: GatewayModel,
    envelope: Seq<char>,
    description: Option<Seq<char>>,
    now: u64,
)
    ensures
        ({
            let after = submit(gateway, envelope, description, now).0;
            &&& after.available == gateway.available
            &&& forall|digest: Seq<char>| #[trigger]
                gateway.holds(digest) ==> after.holds(digest) && after.records[digest]
                    == gateway.records[digest]
            &&& forall|digest: Seq<char>| #[trigger]
                after.holds(digest) && !gateway.holds(digest) ==> after.records[digest].digest
                    == digest && after.records[digest].added_at == now
        }),
{
}

/// A sound store stays sound: every record that a submission adds is held
/// under its own digest and, made as `TransactionRecord::new` makes it, is
/// well formed.
pub proof fn lemma_store_stays_sound(
    gateway: GatewayModel,
    envelope: Seq<char>,
    description: Option<Seq<char>>,
    now: u64,
)
    requires
        gateway.sound(),
        prepared_submission(envelope, description, now) matches Ok(record)
            ==> record.well_formed(),
    ensures
        submit(gateway, envelope, description, now).0.sound(),
{
    let after = submit(gateway, envelope, description, now).0;
    assert forall|digest: Seq<char>| #[trigger] after.holds(digest) implies after.records[digest].digest
        == digest && after.records[digest].well_formed() by {
        if !gateway.holds(digest) {
            assert(after.records[digest] == prepared_submission(
                envelope,
                description,
                now,
            ).unwrap());
        }
    }
}

/// A sound store never shows a corrupt record: what it holds under a digest
/// is shown, and nothing else keeps a reachable store from answering.
pub proof fn lemma_sound_store_shows_every_record(gateway: GatewayModel, digest: Seq<char>)
    requires
        gateway.sound(),
        gateway.available,
        gateway.holds(digest),
    ensures
        retrieve(gateway, digest) == Ok::<_, ServiceError>(response_of(gateway.records[digest])),
{
}

/// Every retrieval has one outcome, fixed by the text, by whether the store
/// can be reached and by what it holds under the text.
pub proof fn lemma_retrieve_outcome(gateway: GatewayModel, digest: Seq<char>)
    ensures
        retrieve(gateway, digest) == (if !is_digest_text(digest) {
            Err(ServiceError::InvalidInput(InvalidInput::Digest))
        } else if !gateway.available {
            Err(ServiceError::StorageUnavailable)
        } else if !gateway.holds(digest) {
            Err(ServiceError::NotFound)
        } else if !is_address_text(gateway.records[digest].sender) {
            Err(ServiceError::CorruptRecord)
        } else {
            Ok(response_of(gateway.records[digest]))
        }),
{
}

/// A text that spells a digest under which nothing is stored is answered
/// with `NotFound` by every store that can be reached.
pub proof fn lemma_unknown_digest_is_not_found(gateway: GatewayModel, digest: Seq<char>)
    requires
        is_digest_text(digest),
        gateway.available,
        !gateway.holds(digest),
    ensures
        retrieve(gateway, digest) == Err::<TransactionResponseView, _>(ServiceError::NotFound),
{
}

/// A text that spells no digest is turned down before any fetch: the first
/// step fails, and the answer is the same whatever the store holds and
/// whether or not it can be reached.
pub proof fn lemma_malformed_digest_never_reaches_store(gateway: GatewayModel, digest: Seq<char>)
    requires
        !is_digest_text(digest),
    ensures
        checked_digest(digest) is Err,
        retrieve(gateway, digest) == Err::<TransactionResponseView, _>(
            ServiceError::InvalidInput(InvalidInput::Digest),
        ),
{
}

/// A derivation succeeds for a shared object and for no other. The object it
/// names is the one at the address, at the version that the node reported,
/// and is not written to. An object that is owned by an address, immutable
/// or owned by consensus is answered with `NotSharedObject`.
pub proof fn lemma_only_shared_objects_derive(
    oracle: spec_fn(Seq<u8>) -> Result<OwnershipInfo, OracleError>,
    address: Seq<char>,
)
    requires
        address_bytes(address) is Some,
    ensures
        ({
            let id = address_bytes(address).unwrap();
            let answer = derive(oracle, address);
            &&& answer is Ok <==> (oracle(id) matches Ok(ownership) && ownership is Shared)
            &&& answer matches Ok(object) ==> {
                &&& object.id == id
                &&& Some(object.initial_shared_version) == oracle(id).unwrap().shared_version_of()
                &&& !object.mutable
            }
            &&& match oracle(id) {
                Ok(ownership) => !(ownership is Shared) ==> answer == Err::<SharedObjectView, _>(
                    ServiceError::NotSharedObject,
                ),
                Err(e) => answer == Err::<SharedObjectView, _>(ServiceError::Oracle(e)),
            }
        }),
{
}

/// A text that spells no address is turned down whatever the node would
/// report.
pub proof fn lemma_malformed_address_never_reaches_node(
    oracle: spec_fn(Seq<u8>) -> Result<OwnershipInfo, OracleError>,
    address: Seq<char>,
)
    requires
        address_bytes(address) is None,
    ensures
        derive(oracle, address) == Err::<SharedObjectView, _>(
            ServiceError::InvalidInput(InvalidInput::Address),
        ),
{
}

/// The status of a submission: 400 for an envelope that is not Base64 and
/// for a body that is no transaction, 500 where the store cannot be reached,
/// and 200 otherwise.
pub proof fn lemma_submit_status(
    gateway: GatewayModel,
    envelope: Seq<char>,
    description: Option<Seq<char>>,
    now: u64,
)
    ensures
        status_of(submit(gateway, envelope, description, now).1) == (if prepared_submission(
            envelope,
            description,
            now,
        ) is Err {
            STATUS_BAD_REQUEST
        } else if !gateway.available {
            STATUS_SERVER_ERROR
        } else {
            STATUS_OK
        }),
{
}

/// The status of a retrieval: 400 for a text that spells no digest, 500
/// where the store cannot be reached or holds a corrupt record, 404 for a
/// digest under which nothing is stored, and 200 otherwise.
pub proof fn lemma_retrieve_status(gateway: GatewayModel, digest: Seq<char>)
    ensures
        status_of(retrieve(gateway, digest)) == (if !is_digest_text(digest) {
            STATUS_BAD_REQUEST
        } else if !gateway.available {
            STATUS_SERVER_ERROR
        } else if !gateway.holds(digest) {
            STATUS_NOT_FOUND
        } else if !is_address_text(gateway.records[digest].sender) {
            STATUS_SERVER_ERROR
        } else {
            STATUS_OK
        }),
{
}

/// The status of a derivation: 400 for a text that spells no address, for an
/// address at which the node knows no object and for an object that is not
/// shared, 500 where the node fails to answer, and 200 for a shared object.
pub proof fn lemma_derive_status(
    oracle: spec_fn(Seq<u8>) -> Result<OwnershipInfo, OracleError>,
    address: Seq<char>,
)
    ensures
        status_of(derive(oracle, address)) == (match address_bytes(address) {
            None => STATUS_BAD_REQUEST,
            Some(id) => match oracle(id) {
                Ok(OwnershipInfo::Shared { .. }) => STATUS_OK,
                Ok(_) => STATUS_BAD_REQUEST,
                Err(OracleError::ObjectNotFound) => STATUS_BAD_REQUEST,
                Err(_) => STATUS_SERVER_ERROR,
            },
        }),
{
}

} // verus!
