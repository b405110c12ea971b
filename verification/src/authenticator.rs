//! Derivation of an authenticator for a shared object.
//!
//! The ledger node is asked who owns the object at an address. Only for a
//! shared object is there anything to derive: a signature that names the
//! object, by its address and the version at which it became shared, as a
//! shared input that is not written to. The signature carries no proof
//! material; it is a stand-in and not the result of a signing ceremony.
//!
//! Deriving runs `begin_derive`, the query to the node and
//! `derive_from_ownership`.

use crate::error::{InvalidInput, OracleError, ServiceError};
use crate::ledger::{address_bytes, Address};
use vstd::prelude::*;

verus! {

/// The kinds of ownership that the ledger knows.
#[derive(Clone, Copy, Debug, PartialEq, Eq, Structural)]
pub enum OwnerKind {
    /// Owned by one address.
    AddressOwned,
    /// Shared: any transaction may name the object as an input.
    Shared,
    /// Frozen: nobody owns the object and nobody can change it.
    Immutable,
    /// Owned by an address, with every use ordered by consensus.
    ConsensusOwned,
}

/// Who owns an object, as the ledger node reports it. Only a shared object
/// has a version at which it became shared.
#[derive(Clone, Copy, Debug, PartialEq, Eq, Structural)]
pub enum OwnershipInfo {
    /// Owned by one address.
    AddressOwned,
    /// Shared since the version `initial_shared_version`.
    Shared { initial_shared_version: u64 },
    /// Frozen: nobody owns the object and nobody can change it.
    Immutable,
    /// Owned by an address, with every use ordered by consensus.
    ConsensusOwned,
}

impl OwnershipInfo {
    /// The kind of ownership.
    pub open spec fn kind_of(self) -> OwnerKind {
        match self {
            OwnershipInfo::AddressOwned => OwnerKind::AddressOwned,
            OwnershipInfo::Shared { .. } => OwnerKind::Shared,
            OwnershipInfo::Immutable => OwnerKind::Immutable,
            OwnershipInfo::ConsensusOwned => OwnerKind::ConsensusOwned,
        }
    }

    /// The version at which the object became shared, for a shared object.
    pub open spec fn shared_version_of(self) -> Option<u64> {
        match self {
            OwnershipInfo::Shared { initial_shared_version } => Some(initial_shared_version),
            _ => None,
        }
    }

    /// The kind of ownership.
    pub fn owner_kind(&self) -> (kind: OwnerKind)
        ensures
            kind == self.kind_of(),
    {
        match self {
            OwnershipInfo::AddressOwned => OwnerKind::AddressOwned,
            OwnershipInfo::Shared { .. } => OwnerKind::Shared,
            OwnershipInfo::Immutable => OwnerKind::Immutable,
            OwnershipInfo::ConsensusOwned => OwnerKind::ConsensusOwned,
        }
    }

    /// The version at which the object became shared: `Some` for a shared
    /// object and for no other.
    pub fn initial_shared_version(&self) -> (version: Option<u64>)
        ensures
            version == self.shared_version_of(),
            version is Some <==> self.kind_of() == OwnerKind::Shared,
    {
        match self {
            OwnershipInfo::Shared { initial_shared_version } => Some(*initial_shared_version),
            _ => None,
        }
    }
}

/// A reference to a shared object as an input of a transaction.
#[derive(Clone, Copy, Debug, PartialEq, Eq)]
pub struct SharedObjectRef {
    /// The address of the object.
    pub id: Address,
    /// The version at which the object became shared.
    pub initial_shared_version: u64,
    /// Whether the transaction may write to the object.
    pub mutable: bool,
}

/// The view of a `SharedObjectRef`.
pub struct SharedObjectView {
    pub id: Seq<u8>,
    pub initial_shared_version: u64,
    pub mutable: bool,
}

impl View for SharedObjectRef {
    type V = SharedObjectView;

    open spec fn view(&self) -> SharedObjectView {
        SharedObjectView {
            id: self.id.bytes@,
            initial_shared_version: self.initial_shared_version,
            mutable: self.mutable,
        }
    }
}

/// The derived signature: an authenticator over one shared object.
#[derive(Clone, Debug, PartialEq, Eq)]
pub struct SignaturePayload {
    /// The arguments handed to the authenticator, each in serialized form.
    pub call_args: Vec<Vec<u8>>,
    /// The type arguments handed to the authenticator.
    pub type_arguments: Vec<String>,
    /// The object that the authenticator speaks for.
    pub object_to_authenticate: SharedObjectRef,
}

impl SignaturePayload {
    /// Whether the payload is the stand-in for `object`: a reference to it
    /// and nothing else.
    pub open spec fn stands_for(self, object: SharedObjectView) -> bool {
        &&& self.call_args@.len() == 0
        &&& self.type_arguments@.len() == 0
        &&& self.object_to_authenticate@ == object
    }
}

/// The object to authenticate at the address `id`, given what the node said
/// of its ownership. A failed query is passed on; an object that is not shared
/// is turned down.
pub open spec fn derived_object(
    id: Seq<u8>,
    ownership: Result<OwnershipInfo, OracleError>,
) -> Result<SharedObjectView, ServiceError> {
    match ownership {
        Ok(OwnershipInfo::Shared { initial_shared_version }) => Ok(
            SharedObjectView { id, initial_shared_version, mutable: false },
        ),
        Ok(_) => Err(ServiceError::NotSharedObject),
        Err(e) => Err(ServiceError::Oracle(e)),
    }
}

/// First step of a derivation: reads the address before the node is asked
/// anything. On `Ok` the node is asked for the ownership of the object at the
/// address, and its answer goes to `derive_from_ownership`.
pub fn begin_derive(address: &str) -> (r: Result<Address, ServiceError>)
    ensures
        match r {
            Ok(a) => address_bytes(address@) == Some(a.bytes@),
            Err(e) => address_bytes(address@) is None && e == ServiceError::InvalidInput(
                InvalidInput::Address,
            ),
        },
{
    match Address::from_text(address) {
        Some(a) => Ok(a),
        None => Err(ServiceError::InvalidInput(InvalidInput::Address)),
    }
}

/// Last step of a derivation: builds the signature for a shared object, and
/// fails for every other answer of the node.
pub fn derive_from_ownership(
    address: Address,
    ownership: Result<OwnershipInfo, OracleError>,
) -> (r: Result<SignaturePayload, ServiceError>)
    ensures
        match derived_object(address.bytes@, ownership) {
            Ok(object) => r matches Ok(payload) && payload.stands_for(object),
            Err(e) => r matches Err(x) && x == e,
        },
{
    match ownership {
        Ok(OwnershipInfo::Shared { initial_shared_version }) => Ok(
            SignaturePayload {
                call_args: Vec::new(),
                type_arguments: Vec::new(),
                object_to_authenticate: SharedObjectRef {
                    id: address,
                    initial_shared_version,
                    mutable: false,
                },
            },
        ),
        Ok(_) => Err(ServiceError::NotSharedObject),
        Err(e) => Err(ServiceError::Oracle(e)),
    }
}

} // verus!
