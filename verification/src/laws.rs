use vstd::prelude::*;

use crate::campaign::Attestation;
use crate::campaign::CampaignStatus;
use crate::errors::Error;
use crate::registry::VerifierRegistry;
use crate::split::split_exact;
use crate::store::key_index;
use crate::vault::AdVault;
use crate::vault::close_campaign_outcome;
use crate::vault::create_campaign_outcome;
use crate::vault::deposit_outcome;
use crate::vault::refund_outcome;
use crate::vault::submit_event_outcome;

verus! {

/// Escrow invariant: in a well-formed vault, every campaign satisfies
/// `0 <= spent <= budget`. Every operation of [`AdVault`] preserves
/// well-formedness, so this holds at every point in time.
pub proof fn lemma_escrow_bounds(v: AdVault, id: Seq<u8>)
    requires
        v.wf(),
        v.has_campaign(id),
    ensures
        0 <= v.campaign_of(id).spent <= v.campaign_of(id).budget,
{
    let i = key_index(v.campaigns@, id);
    assert(0 <= i < v.campaigns@.len() && v.campaigns@[i].key@ == id);
    assert(v.campaigns@[i].val.wf());
}

/// Idempotent rejection: once an event identifier has been consumed, a
/// resubmission that passes the pause and verifier gates is refused as a
/// replay — and `submit_event` guarantees that a refused call changes
/// nothing.
pub proof fn lemma_replay_rejected(
    v: AdVault,
    reg: VerifierRegistry,
    att: Attestation,
    verifier: Seq<u8>,
)
    requires
        v.is_init(),
        !v.paused_flag(),
        reg.verifier_allowed(verifier),
        v.event_seen(att.event_id@),
    ensures
        submit_event_outcome(v, reg, att, verifier) == Result::<(i128, i128, i128), Error>::Err(
            Error::EventReplay,
        ),
{
}

/// Exhaustion: with a positive price and a split configuration that
/// recombines exactly, a campaign whose budget is exactly spent refuses
/// every further settlement for insufficient budget.
pub proof fn lemma_exhaustion(v: AdVault, reg: VerifierRegistry, att: Attestation, verifier: Seq<u8>)
    requires
        v.wf(),
        v.is_init(),
        !v.paused_flag(),
        reg.verifier_allowed(verifier),
        !v.event_seen(att.event_id@),
        v.has_campaign(att.campaign_id@),
        v.campaign_of(att.campaign_id@).status == CampaignStatus::Active,
        reg.publisher_allowed(att.publisher@),
        v.campaign_of(att.campaign_id@).spent == v.campaign_of(att.campaign_id@).budget,
        v.cfg().price_per_event > 0,
        split_exact(
            v.cfg().price_per_event as int,
            v.cfg().split_publisher_bps as int,
            v.cfg().split_viewer_bps as int,
            v.cfg().fee_bps as int,
        ),
    ensures
        submit_event_outcome(v, reg, att, verifier) == Result::<(i128, i128, i128), Error>::Err(
            Error::InsufficientBudget,
        ),
{
}

/// Split exactness: whenever a settlement succeeds, the fee and the two
/// payouts recombine exactly to the global price per event.
pub proof fn lemma_split_exactness(
    v: AdVault,
    reg: VerifierRegistry,
    att: Attestation,
    verifier: Seq<u8>,
)
    requires
        v.wf(),
        v.is_init(),
        submit_event_outcome(v, reg, att, verifier) is Ok,
    ensures
        ({
            let (paid_pub, paid_view, fee) = submit_event_outcome(v, reg, att, verifier)->Ok_0;
            fee + paid_pub + paid_view == v.cfg().price_per_event
        }),
{
}

/// Uniqueness: creating a campaign under an identifier that already exists
/// fails `InvalidParam` whenever the protocol is not paused. The outcome
/// never depends on the caller's identity or deposit.
pub proof fn lemma_create_uniqueness(v: AdVault, campaign_id: Seq<u8>)
    requires
        !v.paused_flag(),
        v.has_campaign(campaign_id),
    ensures
        create_campaign_outcome(v, campaign_id) == Result::<(), Error>::Err(Error::InvalidParam),
{
}

/// Refund idempotence: refunding a closed campaign whose budget equals its
/// spent amount yields `0` — and `refund_unspent` guarantees that an
/// `Ok(0)` call changes nothing, so the call can be repeated freely.
pub proof fn lemma_refund_idempotent(v: AdVault, campaign_id: Seq<u8>)
    requires
        v.wf(),
        v.has_campaign(campaign_id),
        v.campaign_of(campaign_id).status == CampaignStatus::Closed,
        v.campaign_of(campaign_id).budget == v.campaign_of(campaign_id).spent,
    ensures
        refund_outcome(v, campaign_id) == Result::<i128, Error>::Ok(0i128),
{
}

/// Refund precondition: refunding a campaign that is not closed fails
/// `InvalidParam`.
pub proof fn lemma_refund_needs_closed(v: AdVault, campaign_id: Seq<u8>)
    requires
        v.has_campaign(campaign_id),
        v.campaign_of(campaign_id).status != CampaignStatus::Closed,
    ensures
        refund_outcome(v, campaign_id) == Result::<i128, Error>::Err(Error::InvalidParam),
{
}

/// Pausing gates exactly campaign creation and settlement: under the pause
/// flag both fail `ProtocolPaused`.
pub proof fn lemma_pause_gates(
    v: AdVault,
    reg: VerifierRegistry,
    att: Attestation,
    verifier: Seq<u8>,
    campaign_id: Seq<u8>,
)
    requires
        v.paused_flag(),
    ensures
        create_campaign_outcome(v, campaign_id) == Result::<(), Error>::Err(Error::ProtocolPaused),
        submit_event_outcome(v, reg, att, verifier) == Result::<(i128, i128, i128), Error>::Err(
            Error::ProtocolPaused,
        ),
{
}

/// Pause asymmetry: deposits, closing, and refunds never read the pause
/// flag — two vaults with the same ledger give them the same outcome, no
/// matter how the rest of the configuration differs.
pub proof fn lemma_pause_asymmetry(v1: AdVault, v2: AdVault, campaign_id: Seq<u8>)
    requires
        v1.campaigns@ == v2.campaigns@,
    ensures
        deposit_outcome(v1, campaign_id) == deposit_outcome(v2, campaign_id),
        close_campaign_outcome(v1, campaign_id) == close_campaign_outcome(v2, campaign_id),
        refund_outcome(v1, campaign_id) == refund_outcome(v2, campaign_id),
{
}

} // verus!
