//! Pay-per-event advertising settlement.
//!
//! Advertisers fund campaign escrows; allow-listed verifiers submit event
//! attestations; each settled event splits a fixed price between the
//! publisher, the viewer, and a protocol fee, with exact basis-point
//! arithmetic, anti-replay protection, and budget accounting.
//!
//! The crate models the persistent contract state explicitly: [`vault::AdVault`]
//! owns the global configuration, the campaign ledger, and the set of consumed
//! event identifiers; [`registry::VerifierRegistry`] is the allow-list
//! collaborator that gates who may trigger settlement. The host-side
//! collaborators (token transfers, caller authentication, durable storage,
//! the observability sink) stay outside: every operation here is a pure
//! state transition whose outcome and state change are fully specified.

pub mod bytes;
pub mod campaign;
pub mod errors;
pub mod laws;
pub mod registry;
pub mod split;
pub mod store;
pub mod vault;
