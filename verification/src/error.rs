//! The errors of the service and of the two parties it depends on, and how
//! each is shown to a caller.

use vstd::prelude::*;

verus! {

/// Which piece of a caller's input was turned down.
#[derive(Clone, Copy, Debug, PartialEq, Eq, Structural)]
pub enum InvalidInput {
    /// The envelope is not Base64.
    Envelope,
    /// The decoded body is not a transaction of the ledger.
    Transaction,
    /// The text does not spell a digest.
    Digest,
    /// The text does not spell an address.
    Address,
}

/// Why the transaction store did not do what it was asked.
#[derive(Clone, Copy, Debug, PartialEq, Eq, Structural)]
pub enum StoreError {
    /// A record with the same digest is already stored.
    Conflict,
    /// No connection could be had, or the backend failed.
    Unavailable,
}

/// Why the ledger node gave no ownership information.
#[derive(Clone, Copy, Debug, PartialEq, Eq, Structural)]
pub enum OracleError {
    /// The node knows no object at the address.
    ObjectNotFound,
    /// The node did not answer in time.
    Timeout,
    /// The node could not be reached, or answered with an error.
    NetworkFault,
}

/// Every way in which an operation of the service can fail.
#[derive(Clone, Copy, Debug, PartialEq, Eq, Structural)]
pub enum ServiceError {
    /// The caller's input is malformed.
    InvalidInput(InvalidInput),
    /// No record is stored under the digest.
    NotFound,
    /// The transaction store could not be used.
    StorageUnavailable,
    /// A stored record does not hold what every stored record holds.
    CorruptRecord,
    /// The ledger node gave no ownership information.
    Oracle(OracleError),
    /// The object exists and is not shared.
    NotSharedObject,
}

/// The status of a request that was served.
pub const STATUS_OK: u16 = 200;

/// The status of a request that the caller has to correct.
pub const STATUS_BAD_REQUEST: u16 = 400;

/// The status of a request for a record that is not stored.
pub const STATUS_NOT_FOUND: u16 = 404;

/// The status of a request that failed through no fault of the caller.
pub const STATUS_SERVER_ERROR: u16 = 500;

impl ServiceError {
    /// The status under which the error is reported. Malformed input, an
    /// object that is not shared and an address at which the node knows no
    /// object are the caller's to correct; an unknown digest is reported as
    /// absent; everything else is a fault of the service.
    pub open spec fn status_of(self) -> u16 {
        match self {
            ServiceError::InvalidInput(_) => STATUS_BAD_REQUEST,
            ServiceError::NotFound => STATUS_NOT_FOUND,
            ServiceError::StorageUnavailable => STATUS_SERVER_ERROR,
            ServiceError::CorruptRecord => STATUS_SERVER_ERROR,
            ServiceError::Oracle(OracleError::ObjectNotFound) => STATUS_BAD_REQUEST,
            ServiceError::Oracle(_) => STATUS_SERVER_ERROR,
            ServiceError::NotSharedObject => STATUS_BAD_REQUEST,
        }
    }

    /// The short message shown to the caller. It names the category and never
    /// carries detail of the store or of the node.
    pub open spec fn message_of(self) -> Seq<char> {
        match self {
            ServiceError::InvalidInput(InvalidInput::Envelope) => "Invalid base64 transaction bytes"@,
            ServiceError::InvalidInput(InvalidInput::Transaction) => "Invalid transaction data"@,
            ServiceError::InvalidInput(InvalidInput::Digest) => "Invalid IOTA transaction digest"@,
            ServiceError::InvalidInput(InvalidInput::Address) => "Invalid IOTA address"@,
            ServiceError::NotFound => "Transaction not found"@,
            ServiceError::StorageUnavailable => "Storage unavailable"@,
            ServiceError::CorruptRecord => "Stored record is corrupt"@,
            ServiceError::Oracle(OracleError::ObjectNotFound) => "Object not found"@,
            ServiceError::Oracle(OracleError::Timeout) => "Ledger node timed out"@,
            ServiceError::Oracle(OracleError::NetworkFault) => "Ledger node unreachable"@,
            ServiceError::NotSharedObject => "The provided address is not a shared object id"@,
        }
    }

    /// The status under which the error is reported.
    pub fn status(&self) -> (code: u16)
        ensures
            code == self.status_of(),
    {
        match self {
            ServiceError::InvalidInput(_) => STATUS_BAD_REQUEST,
            ServiceError::NotFound => STATUS_NOT_FOUND,
            ServiceError::StorageUnavailable => STATUS_SERVER_ERROR,
            ServiceError::CorruptRecord => STATUS_SERVER_ERROR,
            ServiceError::Oracle(OracleError::ObjectNotFound) => STATUS_BAD_REQUEST,
            ServiceError::Oracle(_) => STATUS_SERVER_ERROR,
            ServiceError::NotSharedObject => STATUS_BAD_REQUEST,
        }
    }

    /// The short message shown to the caller.
    pub fn message(&self) -> (text: &'static str)
        ensures
            text@ == self.message_of(),
    {
        match self {
            ServiceError::InvalidInput(InvalidInput::Envelope) => "Invalid base64 transaction bytes",
            ServiceError::InvalidInput(InvalidInput::Transaction) => "Invalid transaction data",
            ServiceError::InvalidInput(InvalidInput::Digest) => "Invalid IOTA transaction digest",
            ServiceError::InvalidInput(InvalidInput::Address) => "Invalid IOTA address",
            ServiceError::NotFound => "Transaction not found",
            ServiceError::StorageUnavailable => "Storage unavailable",
            ServiceError::CorruptRecord => "Stored record is corrupt",
            ServiceError::Oracle(OracleError::ObjectNotFound) => "Object not found",
            ServiceError::Oracle(OracleError::Timeout) => "Ledger node timed out",
            ServiceError::Oracle(OracleError::NetworkFault) => "Ledger node unreachable",
            ServiceError::NotSharedObject => "The provided address is not a shared object id",
        }
    }

    /// Whether the error is the caller's to correct.
    pub fn is_client_error(&self) -> (client: bool)
        ensures
            client == (self.status_of() != STATUS_SERVER_ERROR),
    {
        self.status() != STATUS_SERVER_ERROR
    }
}

} // verus!
