use vstd::prelude::*;

verus! {

/// Why a vault operation was refused. Every failing call leaves the state
/// exactly as it was (fail-closed); the variant says which gate refused it.
#[derive(Clone, Copy, Debug, PartialEq, Eq, Structural)]
pub enum Error {
    /// The caller is not the configured admin.
    NotAdmin,
    /// Publisher and viewer shares would exceed the whole (10000 bps).
    InvalidSplit,
    /// The submitting verifier is not on the registry's allow-list.
    UnauthorizedVerifier,
    /// No campaign exists under the given identifier.
    CampaignNotFound,
    /// The campaign is closed and no longer accepts the operation.
    CampaignClosed,
    /// The event identifier was already settled once.
    EventReplay,
    /// The campaign's remaining budget does not cover the price.
    InsufficientBudget,
    /// A parameter is invalid: a duplicate campaign identifier, a refund on
    /// a campaign that is not closed, or a split that does not recombine
    /// exactly to the price.
    InvalidParam,
    /// The protocol-wide pause flag is set.
    ProtocolPaused,
    /// The publisher is explicitly denied by the registry.
    PublisherNotAllowed,
}

/// Why a registry operation was refused.
#[derive(Clone, Copy, Debug, PartialEq, Eq, Structural)]
pub enum RegistryError {
    /// The caller is not the registry owner.
    NotOwner,
}

} // verus!
