use vstd::prelude::*;

use crate::split::MAX_PRICE;

verus! {

/// A campaign only moves from `Active` to `Closed`, never back.
#[derive(Clone, Copy, Debug, PartialEq, Eq, Structural)]
pub enum CampaignStatus {
    Active,
    Closed,
}

/// One advertiser-funded escrow record, keyed externally by its 32-byte
/// campaign identifier.
pub struct Campaign {
    pub advertiser: Vec<u8>,
    pub budget: i128,
    pub spent: i128,
    pub status: CampaignStatus,
}

impl Campaign {
    /// The escrow never pays out more than it holds.
    pub open spec fn wf(self) -> bool {
        0 <= self.spent <= self.budget
    }
}

/// What kind of event an attestation claims.
#[derive(Clone, Copy, Debug, PartialEq, Eq, Structural)]
pub enum EventKind {
    Click,
    View,
}

/// A verifier's claim that one attributable event occurred. Transient
/// input: only the event identifier is ever stored (as consumed).
pub struct Attestation {
    pub event_id: Vec<u8>,
    pub campaign_id: Vec<u8>,
    pub publisher: Vec<u8>,
    pub viewer: Vec<u8>,
    pub event_kind: EventKind,
    pub timestamp: u64,
    pub nonce: Vec<u8>,
}

/// Admin-controlled global parameters, set at initialization and mutated
/// only by governance calls.
pub struct GlobalConfig {
    pub admin: Vec<u8>,
    pub token: Vec<u8>,
    pub verifier_registry: Vec<u8>,
    pub price_per_event: i128,
    pub split_publisher_bps: u32,
    pub split_viewer_bps: u32,
    pub fee_bps: u32,
    pub paused: bool,
}

impl GlobalConfig {
    /// Publisher and viewer shares fit inside the whole, and the price is
    /// non-negative and small enough that share arithmetic cannot overflow.
    pub open spec fn wf(self) -> bool {
        &&& self.split_publisher_bps + self.split_viewer_bps <= 10_000
        &&& 0 <= self.price_per_event <= MAX_PRICE
    }
}

} // verus!
