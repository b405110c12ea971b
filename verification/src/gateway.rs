//! The transaction store as the service sees it: insert if absent, fetch by
//! digest.
//!
//! The store itself is somebody else's. What is written here is what its
//! answers look like, and a model of a store that keeps to the rules. The
//! guarantees of the service are proved against that model.

use crate::error::StoreError;
use crate::record::{RecordView, TransactionRecord};
use vstd::prelude::*;

verus! {

/// The view of the store's answer to a fetch.
pub open spec fn fetched_view(fetched: Result<Option<TransactionRecord>, StoreError>) -> Result<
    Option<RecordView>,
    StoreError,
> {
    match fetched {
        Ok(Some(record)) => Ok(Some(record@)),
        Ok(None) => Ok(None),
        Err(e) => Err(e),
    }
}

/// A store that keeps to the rules. It holds at most one record under each
/// digest, never changes or drops a record, and says so when it cannot be
/// reached.
pub struct GatewayModel {
    /// The records held, each under its digest.
    pub records: Map<Seq<char>, RecordView>,
    /// Whether the store can be reached.
    pub available: bool,
}

impl GatewayModel {
    /// Whether a record is held under `digest`.
    pub open spec fn holds(self, digest: Seq<char>) -> bool {
        self.records.dom().contains(digest)
    }

    /// The records after an insert has been asked for. A record is added only
    /// where the store can be reached and holds none under the same digest.
    pub open spec fn records_after_insert(self, record: RecordView) -> Map<Seq<char>, RecordView> {
        if self.available && !self.holds(record.digest) {
            self.records.insert(record.digest, record)
        } else {
            self.records
        }
    }

    /// The store after an insert has been asked for.
    pub open spec fn after_insert(self, record: RecordView) -> GatewayModel {
        GatewayModel { records: self.records_after_insert(record), available: self.available }
    }

    /// The store's answer to an insert. A second insert under one digest is
    /// turned down as a conflict; it is never passed over in silence.
    pub open spec fn insert_outcome(self, record: RecordView) -> Result<(), StoreError> {
        if !self.available {
            Err(StoreError::Unavailable)
        } else if self.holds(record.digest) {
            Err(StoreError::Conflict)
        } else {
            Ok(())
        }
    }

    /// The store's answer to a fetch. An unknown digest is no error.
    pub open spec fn get_by_digest(self, digest: Seq<char>) -> Result<
        Option<RecordView>,
        StoreError,
    > {
        if !self.available {
            Err(StoreError::Unavailable)
        } else if self.holds(digest) {
            Ok(Some(self.records[digest]))
        } else {
            Ok(None)
        }
    }

    /// Whether every record is held under its own digest and is well formed.
    /// A store that was empty once and has taken its records from the service
    /// alone is sound.
    pub open spec fn sound(self) -> bool {
        forall|digest: Seq<char>| #[trigger]
            self.holds(digest) ==> self.records[digest].digest == digest
                && self.records[digest].well_formed()
    }

    /// The same records in a store that can, or cannot, be reached.
    pub open spec fn reachable(self, available: bool) -> GatewayModel {
        GatewayModel { records: self.records, available }
    }
}

} // verus!
