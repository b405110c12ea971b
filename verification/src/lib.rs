//! Validation, record keeping and retrieval rules of a ledger transaction
//! archive, together with the derivation of a shared-object authenticator.
//!
//! The crate reads and checks what callers send and decides what is stored
//! and what is answered. Whoever embeds it talks to the transaction store and
//! to the ledger node, and hands each answer back to the step that waits for
//! it.

pub mod encoding;
pub mod ledger;
pub mod error;
pub mod record;
pub mod gateway;
mod clock;
pub mod service;
pub mod authenticator;
pub mod api;
pub mod guarantees;
