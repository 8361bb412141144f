use vstd::prelude::*;

use crate::campaign::Attestation;
use crate::campaign::Campaign;
use crate::campaign::CampaignStatus;
use crate::campaign::GlobalConfig;
use crate::bytes::bytes_dup;
use crate::errors::Error;
use crate::registry::VerifierRegistry;
use crate::split::MAX_PRICE;
use crate::split::bps_mul;
use crate::split::bps_share;
use crate::store::KeyedEntry;
use crate::store::find_key;
use crate::store::flag_lookup;
use crate::store::flag_of;
use crate::store::has_key;
use crate::store::lemma_key_index;
use crate::store::lemma_push_key;
use crate::store::lemma_set_key;
use crate::store::set_flag;
use crate::store::unique_keys;
use crate::store::val_of;

verus! {

/// The persistent state of the settlement system: the global configuration,
/// the campaign ledger, and the append-only set of consumed event
/// identifiers.
///
/// Caller authentication is the host's: before an admin-gated call
/// (governance, close, refund) the host must have verified that the admin
/// signed, before `create_campaign` that the advertiser signed, and before
/// `submit_event` that the submitting verifier signed; the host aborts the
/// transaction otherwise. Token transfers and the observability sink are
/// likewise host collaborators: each operation's result says which amounts
/// move, and a failed transfer aborts the whole transaction, discarding the
/// state transition made here.
pub struct AdVault {
    pub config: Option<GlobalConfig>,
    pub campaigns: Vec<KeyedEntry<Campaign>>,
    pub seen: Vec<KeyedEntry<bool>>,
}

impl AdVault {
    /// Campaign and event stores hold one record per key, every escrow
    /// satisfies `0 <= spent <= budget`, and the configuration, once set,
    /// satisfies its own invariant.
    pub open spec fn wf(self) -> bool {
        &&& unique_keys(self.campaigns@)
        &&& unique_keys(self.seen@)
        &&& forall|i: int|
            0 <= i < self.campaigns@.len() ==> (#[trigger] self.campaigns@[i]).val.wf()
        &&& match self.config {
            Some(c) => c.wf(),
            None => true,
        }
    }

    /// The vault has been initialized with a configuration.
    pub open spec fn is_init(self) -> bool {
        self.config is Some
    }

    pub open spec fn cfg(self) -> GlobalConfig
        recommends
            self.is_init(),
    {
        self.config->0
    }

    /// The protocol-wide pause flag (an uninitialized vault is not paused).
    pub open spec fn paused_flag(self) -> bool {
        self.is_init() && self.cfg().paused
    }

    /// A campaign record exists under this identifier.
    pub open spec fn has_campaign(self, id: Seq<u8>) -> bool {
        has_key(self.campaigns@, id)
    }

    /// The campaign record under this identifier.
    pub open spec fn campaign_of(self, id: Seq<u8>) -> Campaign
        recommends
            self.has_campaign(id),
    {
        val_of(self.campaigns@, id)
    }

    /// This event identifier has already been settled.
    pub open spec fn event_seen(self, id: Seq<u8>) -> bool {
        flag_of(self.seen@, id, false)
    }
}

/// Outcome of initialization and of `set_splits`: the two shares must fit
/// inside the whole.
pub open spec fn split_config_outcome(pub_bps: int, view_bps: int) -> Result<(), Error> {
    if pub_bps + view_bps > 10_000 {
        Err(Error::InvalidSplit)
    } else {
        Ok(())
    }
}

/// Outcome of `create_campaign`. It depends only on the pause flag and on
/// whether the identifier is already taken, never on the caller's identity.
pub open spec fn create_campaign_outcome(v: AdVault, campaign_id: Seq<u8>) -> Result<(), Error> {
    if v.paused_flag() {
        Err(Error::ProtocolPaused)
    } else if v.has_campaign(campaign_id) {
        Err(Error::InvalidParam)
    } else {
        Ok(())
    }
}

/// Outcome of `deposit`. The pause flag does not gate deposits.
pub open spec fn deposit_outcome(v: AdVault, campaign_id: Seq<u8>) -> Result<(), Error> {
    if !v.has_campaign(campaign_id) {
        Err(Error::CampaignNotFound)
    } else if v.campaign_of(campaign_id).status != CampaignStatus::Active {
        Err(Error::CampaignClosed)
    } else {
        Ok(())
    }
}

/// Outcome of `close_campaign`. Closing an already-closed campaign is an
/// idempotent no-op, not an error.
pub open spec fn close_campaign_outcome(v: AdVault, campaign_id: Seq<u8>) -> Result<(), Error> {
    if !v.has_campaign(campaign_id) {
        Err(Error::CampaignNotFound)
    } else {
        Ok(())
    }
}

/// Outcome of `refund_unspent`: the unspent remainder of a closed
/// campaign, and `0` once the escrow is drained.
pub open spec fn refund_outcome(v: AdVault, campaign_id: Seq<u8>) -> Result<i128, Error> {
    if !v.has_campaign(campaign_id) {
        Err(Error::CampaignNotFound)
    } else if v.campaign_of(campaign_id).status != CampaignStatus::Closed {
        Err(Error::InvalidParam)
    } else if v.campaign_of(campaign_id).budget <= v.campaign_of(campaign_id).spent {
        Ok(0)
    } else {
        Ok((v.campaign_of(campaign_id).budget - v.campaign_of(campaign_id).spent) as i128)
    }
}

/// Outcome of `submit_event`: the gates in their checking order, then the
/// split `(paid_pub, paid_view, fee)` of the global price.
pub open spec fn submit_event_outcome(
    v: AdVault,
    reg: VerifierRegistry,
    att: Attestation,
    verifier: Seq<u8>,
) -> Result<(i128, i128, i128), Error>
    recommends
        v.is_init(),
{
    let c = v.cfg();
    let total = c.price_per_event as int;
    let fee = bps_share(total, c.fee_bps as int);
    let paid_pub = bps_share(total, c.split_publisher_bps as int);
    let paid_view = bps_share(total, c.split_viewer_bps as int);
    if v.paused_flag() {
        Err(Error::ProtocolPaused)
    } else if !reg.verifier_allowed(verifier) {
        Err(Error::UnauthorizedVerifier)
    } else if v.event_seen(att.event_id@) {
        Err(Error::EventReplay)
    } else if !v.has_campaign(att.campaign_id@) {
        Err(Error::CampaignNotFound)
    } else if v.campaign_of(att.campaign_id@).status != CampaignStatus::Active {
        Err(Error::CampaignClosed)
    } else if !reg.publisher_allowed(att.publisher@) {
        Err(Error::PublisherNotAllowed)
    } else if c.split_publisher_bps + c.split_viewer_bps > 10_000 {
        Err(Error::InvalidSplit)
    } else if fee + paid_pub + paid_view != total {
        Err(Error::InvalidParam)
    } else if v.campaign_of(att.campaign_id@).spent + total > v.campaign_of(
        att.campaign_id@,
    ).budget {
        Err(Error::InsufficientBudget)
    } else {
        Ok((paid_pub as i128, paid_view as i128, fee as i128))
    }
}

impl AdVault {
    /// A freshly deployed vault: no configuration, no campaigns, no
    /// consumed events.
    pub fn new() -> (r: Self)
        ensures
            r.wf(),
            !r.is_init(),
            r.campaigns@.len() == 0,
            r.seen@.len() == 0,
    {
        AdVault { config: None, campaigns: Vec::new(), seen: Vec::new() }
    }

    fn read_config(&self) -> (c: &GlobalConfig)
        requires
            self.is_init(),
        ensures
            *c == self.cfg(),
    {
        match &self.config {
            Some(c) => c,
            None => vstd::pervasive::unreached(),
        }
    }

    /// Record the global configuration. The pause flag starts cleared; the
    /// ledger and the consumed-event set are untouched.
    pub fn init(
        &mut self,
        admin: Vec<u8>,
        token: Vec<u8>,
        verifier_registry: Vec<u8>,
        price_per_event: i128,
        split_publisher_bps: u32,
        split_viewer_bps: u32,
        fee_bps: u32,
    ) -> (r: Result<(), Error>)
        requires
            old(self).wf(),
            0 <= price_per_event <= MAX_PRICE,
        ensures
            final(self).wf(),
            final(self).campaigns == old(self).campaigns,
            final(self).seen == old(self).seen,
            r == split_config_outcome(split_publisher_bps as int, split_viewer_bps as int),
            r is Err ==> *final(self) == *old(self),
            r is Ok ==> final(self).config == (Some(
                GlobalConfig {
                    admin,
                    token,
                    verifier_registry,
                    price_per_event,
                    split_publisher_bps,
                    split_viewer_bps,
                    fee_bps,
                    paused: false,
                },
            )),
    {
        if split_publisher_bps as u64 + split_viewer_bps as u64 > 10_000 {
            return Err(Error::InvalidSplit);
        }
        self.config = Some(
            GlobalConfig {
                admin,
                token,
                verifier_registry,
                price_per_event,
                split_publisher_bps,
                split_viewer_bps,
                fee_bps,
                paused: false,
            },
        );
        Ok(())
    }

    /// Admin-gated: set the protocol-wide pause flag.
    pub fn pause_protocol(&mut self)
        requires
            old(self).wf(),
            old(self).is_init(),
        ensures
            final(self).wf(),
            final(self).is_init(),
            final(self).cfg() == (GlobalConfig { paused: true, ..old(self).cfg() }),
            final(self).campaigns == old(self).campaigns,
            final(self).seen == old(self).seen,
    {
        match &mut self.config {
            Some(c) => {
                c.paused = true;
            },
            None => {
                proof {
                    assert(false);
                }
            },
        }
    }

    /// Admin-gated: clear the protocol-wide pause flag.
    pub fn unpause_protocol(&mut self)
        requires
            old(self).wf(),
            old(self).is_init(),
        ensures
            final(self).wf(),
            final(self).is_init(),
            final(self).cfg() == (GlobalConfig { paused: false, ..old(self).cfg() }),
            final(self).campaigns == old(self).campaigns,
            final(self).seen == old(self).seen,
    {
        match &mut self.config {
            Some(c) => {
                c.paused = false;
            },
            None => {
                proof {
                    assert(false);
                }
            },
        }
    }

    pub fn is_protocol_paused(&self) -> (r: bool)
        ensures
            r == self.paused_flag(),
    {
        match &self.config {
            Some(c) => c.paused,
            None => false,
        }
    }

    /// Admin-gated: set the global price per event.
    pub fn set_price_per_event(&mut self, new_price: i128) -> (r: Result<(), Error>)
        requires
            old(self).wf(),
            old(self).is_init(),
            0 <= new_price <= MAX_PRICE,
        ensures
            final(self).wf(),
            final(self).is_init(),
            r is Ok,
            final(self).cfg() == (GlobalConfig { price_per_event: new_price, ..old(self).cfg() }),
            final(self).campaigns == old(self).campaigns,
            final(self).seen == old(self).seen,
    {
        match &mut self.config {
            Some(c) => {
                c.price_per_event = new_price;
            },
            None => {
                proof {
                    assert(false);
                }
            },
        }
        Ok(())
    }

    /// Admin-gated: set the publisher and viewer shares, refusing a pair
    /// that exceeds the whole.
    pub fn set_splits(&mut self, pub_bps: u32, view_bps: u32) -> (r: Result<(), Error>)
        requires
            old(self).wf(),
            old(self).is_init(),
        ensures
            final(self).wf(),
            final(self).is_init(),
            r == split_config_outcome(pub_bps as int, view_bps as int),
            r is Err ==> *final(self) == *old(self),
            r is Ok ==> final(self).cfg() == (GlobalConfig {
                split_publisher_bps: pub_bps,
                split_viewer_bps: view_bps,
                ..old(self).cfg()
            }),
            final(self).campaigns == old(self).campaigns,
            final(self).seen == old(self).seen,
    {
        if pub_bps as u64 + view_bps as u64 > 10_000 {
            return Err(Error::InvalidSplit);
        }
        match &mut self.config {
            Some(c) => {
                c.split_publisher_bps = pub_bps;
                c.split_viewer_bps = view_bps;
            },
            None => {
                proof {
                    assert(false);
                }
            },
        }
        Ok(())
    }

    /// Admin-gated: set the protocol fee. Any `u32` is accepted here; a fee
    /// that breaks the exact recombination makes every settlement fail
    /// `InvalidParam` until it is corrected.
    pub fn set_fee_bps(&mut self, new_fee: u32) -> (r: Result<(), Error>)
        requires
            old(self).wf(),
            old(self).is_init(),
        ensures
            final(self).wf(),
            final(self).is_init(),
            r is Ok,
            final(self).cfg() == (GlobalConfig { fee_bps: new_fee, ..old(self).cfg() }),
            final(self).campaigns == old(self).campaigns,
            final(self).seen == old(self).seen,
    {
        match &mut self.config {
            Some(c) => {
                c.fee_bps = new_fee;
            },
            None => {
                proof {
                    assert(false);
                }
            },
        }
        Ok(())
    }

    /// Advertiser-gated: create a campaign under a caller-chosen
    /// identifier. The initial deposit, if positive, is pulled from the
    /// advertiser by the host's transfer collaborator; a failed transfer
    /// aborts the transaction, so no funded-looking record survives it.
    pub fn create_campaign(
        &mut self,
        campaign_id: Vec<u8>,
        advertiser: Vec<u8>,
        initial_deposit: i128,
    ) -> (r: Result<(), Error>)
        requires
            old(self).wf(),
            old(self).is_init(),
        ensures
            final(self).wf(),
            final(self).config == old(self).config,
            final(self).seen == old(self).seen,
            r == create_campaign_outcome(*old(self), campaign_id@),
            r is Err ==> *final(self) == *old(self),
            r is Ok ==> {
                &&& forall|k: Seq<u8>|
                    final(self).has_campaign(k) == (old(self).has_campaign(k) || k
                        == campaign_id@)
                &&& final(self).campaign_of(campaign_id@) == (Campaign {
                    advertiser,
                    budget: (if initial_deposit > 0 {
                        initial_deposit
                    } else {
                        0
                    }),
                    spent: 0,
                    status: CampaignStatus::Active,
                })
                &&& forall|k: Seq<u8>|
                    k != campaign_id@ && old(self).has_campaign(k) ==> final(self).campaign_of(k)
                        == old(self).campaign_of(k)
            },
    {
        let c = self.read_config();
        let paused = c.paused;
        if paused {
            return Err(Error::ProtocolPaused);
        }
        match find_key(&self.campaigns, &campaign_id) {
            Some(i) => {
                proof {
                    assert(self.campaigns@[i as int].key@ == campaign_id@);
                    assert(has_key(self.campaigns@, campaign_id@));
                }
                return Err(Error::InvalidParam);
            },
            None => {},
        }
        let budget = if initial_deposit > 0 {
            initial_deposit
        } else {
            0
        };
        let e = KeyedEntry {
            key: campaign_id,
            val: Campaign { advertiser, budget, spent: 0, status: CampaignStatus::Active },
        };
        proof {
            lemma_push_key(self.campaigns@, e);
        }
        let ghost pre = self.campaigns@;
        self.campaigns.push(e);
        proof {
            assert forall|i: int|
                0 <= i < self.campaigns@.len() implies (#[trigger] self.campaigns@[i]).val.wf() by {
                if i < pre.len() {
                    assert(self.campaigns@[i] == pre[i]);
                } else {
                    assert(self.campaigns@[i] == e);
                }
            }
        }
        Ok(())
    }

    /// Depositor-gated by the host: pull `amount` from `from` and credit
    /// the campaign's budget. Deposits are not gated by the pause flag.
    pub fn deposit(&mut self, campaign_id: &Vec<u8>, from: &Vec<u8>, amount: i128) -> (r: Result<
        (),
        Error,
    >)
        requires
            old(self).wf(),
            old(self).is_init(),
            0 <= amount,
            old(self).has_campaign(campaign_id@) && old(self).campaign_of(campaign_id@).status
                == CampaignStatus::Active ==> old(self).campaign_of(campaign_id@).budget + amount
                <= i128::MAX,
        ensures
            final(self).wf(),
            final(self).config == old(self).config,
            final(self).seen == old(self).seen,
            r == deposit_outcome(*old(self), campaign_id@),
            r is Err ==> *final(self) == *old(self),
            r is Ok ==> {
                &&& forall|k: Seq<u8>| final(self).has_campaign(k) == old(self).has_campaign(k)
                &&& final(self).campaign_of(campaign_id@).budget == old(self).campaign_of(
                    campaign_id@,
                ).budget + amount
                &&& final(self).campaign_of(campaign_id@).spent == old(self).campaign_of(
                    campaign_id@,
                ).spent
                &&& final(self).campaign_of(campaign_id@).status == old(self).campaign_of(
                    campaign_id@,
                ).status
                &&& final(self).campaign_of(campaign_id@).advertiser == old(self).campaign_of(
                    campaign_id@,
                ).advertiser
                &&& forall|k: Seq<u8>|
                    k != campaign_id@ && old(self).has_campaign(k) ==> final(self).campaign_of(k)
                        == old(self).campaign_of(k)
            },
    {
        let idx = match find_key(&self.campaigns, campaign_id) {
            Some(i) => i,
            None => {
                return Err(Error::CampaignNotFound);
            },
        };
        proof {
            lemma_key_index(self.campaigns@, campaign_id@, idx as int);
        }
        if self.campaigns[idx].val.status != CampaignStatus::Active {
            return Err(Error::CampaignClosed);
        }
        let entry = &mut self.campaigns[idx];
        entry.val.budget = entry.val.budget + amount;
        proof {
            lemma_set_key(old(self).campaigns@, idx as int, self.campaigns@[idx as int]);
            assert forall|i: int|
                0 <= i < self.campaigns@.len() implies (#[trigger] self.campaigns@[i]).val.wf() by {
                if i != idx {
                    assert(self.campaigns@[i] == old(self).campaigns@[i]);
                }
            }
        }
        Ok(())
    }

    /// Admin-gated: close a campaign. Re-closing a closed campaign is an
    /// idempotent no-op. The reason is recorded only by the host's
    /// observability sink.
    pub fn close_campaign(&mut self, campaign_id: &Vec<u8>, reason: &Vec<u8>) -> (r: Result<
        (),
        Error,
    >)
        requires
            old(self).wf(),
            old(self).is_init(),
        ensures
            final(self).wf(),
            final(self).config == old(self).config,
            final(self).seen == old(self).seen,
            r == close_campaign_outcome(*old(self), campaign_id@),
            r is Err ==> *final(self) == *old(self),
            r is Ok ==> {
                &&& forall|k: Seq<u8>| final(self).has_campaign(k) == old(self).has_campaign(k)
                &&& final(self).campaign_of(campaign_id@).status == CampaignStatus::Closed
                &&& final(self).campaign_of(campaign_id@).budget == old(self).campaign_of(
                    campaign_id@,
                ).budget
                &&& final(self).campaign_of(campaign_id@).spent == old(self).campaign_of(
                    campaign_id@,
                ).spent
                &&& final(self).campaign_of(campaign_id@).advertiser == old(self).campaign_of(
                    campaign_id@,
                ).advertiser
                &&& forall|k: Seq<u8>|
                    k != campaign_id@ && old(self).has_campaign(k) ==> final(self).campaign_of(k)
                        == old(self).campaign_of(k)
            },
    {
        let idx = match find_key(&self.campaigns, campaign_id) {
            Some(i) => i,
            None => {
                return Err(Error::CampaignNotFound);
            },
        };
        proof {
            lemma_key_index(self.campaigns@, campaign_id@, idx as int);
        }
        let entry = &mut self.campaigns[idx];
        entry.val.status = CampaignStatus::Closed;
        proof {
            lemma_set_key(old(self).campaigns@, idx as int, self.campaigns@[idx as int]);
            assert forall|i: int|
                0 <= i < self.campaigns@.len() implies (#[trigger] self.campaigns@[i]).val.wf() by {
                if i != idx {
                    assert(self.campaigns@[i] == old(self).campaigns@[i]);
                }
            }
        }
        Ok(())
    }

    /// Admin-gated: drain the unspent remainder of a closed campaign. The
    /// returned amount is what the host transfers to the recipient; once
    /// the escrow is drained the call returns `0` and moves nothing, so it
    /// is safe to repeat.
    pub fn refund_unspent(&mut self, campaign_id: &Vec<u8>, to: &Vec<u8>) -> (r: Result<
        i128,
        Error,
    >)
        requires
            old(self).wf(),
            old(self).is_init(),
        ensures
            final(self).wf(),
            final(self).config == old(self).config,
            final(self).seen == old(self).seen,
            r == refund_outcome(*old(self), campaign_id@),
            r is Err ==> *final(self) == *old(self),
            r == (Result::<i128, Error>::Ok(0i128)) ==> *final(self) == *old(self),
            r is Ok ==> {
                &&& forall|k: Seq<u8>| final(self).has_campaign(k) == old(self).has_campaign(k)
                &&& final(self).campaign_of(campaign_id@).budget == old(self).campaign_of(
                    campaign_id@,
                ).spent
                &&& final(self).campaign_of(campaign_id@).spent == old(self).campaign_of(
                    campaign_id@,
                ).spent
                &&& final(self).campaign_of(campaign_id@).status == old(self).campaign_of(
                    campaign_id@,
                ).status
                &&& final(self).campaign_of(campaign_id@).advertiser == old(self).campaign_of(
                    campaign_id@,
                ).advertiser
                &&& forall|k: Seq<u8>|
                    k != campaign_id@ && old(self).has_campaign(k) ==> final(self).campaign_of(k)
                        == old(self).campaign_of(k)
            },
    {
        let idx = match find_key(&self.campaigns, campaign_id) {
            Some(i) => i,
            None => {
                return Err(Error::CampaignNotFound);
            },
        };
        proof {
            lemma_key_index(self.campaigns@, campaign_id@, idx as int);
        }
        if self.campaigns[idx].val.status != CampaignStatus::Closed {
            return Err(Error::InvalidParam);
        }
        let budget = self.campaigns[idx].val.budget;
        let spent = self.campaigns[idx].val.spent;
        let unspent = budget - spent;
        if unspent <= 0 {
            return Ok(0);
        }
        let entry = &mut self.campaigns[idx];
        entry.val.budget = entry.val.budget - unspent;
        proof {
            lemma_set_key(old(self).campaigns@, idx as int, self.campaigns@[idx as int]);
            assert forall|i: int|
                0 <= i < self.campaigns@.len() implies (#[trigger] self.campaigns@[i]).val.wf() by {
                if i != idx {
                    assert(self.campaigns@[i] == old(self).campaigns@[i]);
                }
            }
        }
        Ok(unspent)
    }

    /// Verifier-gated settlement of one attested event: check every gate,
    /// split the global price exactly, charge the campaign, and consume the
    /// event identifier. Returns `(paid_pub, paid_view, fee)`, the three
    /// amounts the host transfers out of the escrow (the fee only when
    /// positive). Any failure leaves the state untouched.
    pub fn submit_event(
        &mut self,
        reg: &VerifierRegistry,
        att: &Attestation,
        verifier: &Vec<u8>,
    ) -> (r: Result<(i128, i128, i128), Error>)
        requires
            old(self).wf(),
            old(self).is_init(),
            reg.wf(),
        ensures
            final(self).wf(),
            final(self).config == old(self).config,
            r == submit_event_outcome(*old(self), *reg, *att, verifier@),
            r is Err ==> *final(self) == *old(self),
            r is Ok ==> {
                &&& forall|k: Seq<u8>| final(self).has_campaign(k) == old(self).has_campaign(k)
                &&& forall|k: Seq<u8>|
                    final(self).event_seen(k) == (old(self).event_seen(k) || k == att.event_id@)
                &&& final(self).campaign_of(att.campaign_id@).spent == old(self).campaign_of(
                    att.campaign_id@,
                ).spent + old(self).cfg().price_per_event
                &&& final(self).campaign_of(att.campaign_id@).budget == old(self).campaign_of(
                    att.campaign_id@,
                ).budget
                &&& final(self).campaign_of(att.campaign_id@).status == old(self).campaign_of(
                    att.campaign_id@,
                ).status
                &&& final(self).campaign_of(att.campaign_id@).advertiser == old(self).campaign_of(
                    att.campaign_id@,
                ).advertiser
                &&& forall|k: Seq<u8>|
                    k != att.campaign_id@ && old(self).has_campaign(k) ==> final(self).campaign_of(
                        k,
                    ) == old(self).campaign_of(k)
            },
    {
        let c = self.read_config();
        let paused = c.paused;
        let price = c.price_per_event;
        let pub_bps = c.split_publisher_bps;
        let view_bps = c.split_viewer_bps;
        let fee_bps = c.fee_bps;
        if paused {
            return Err(Error::ProtocolPaused);
        }
        if !reg.is_verifier(verifier) {
            return Err(Error::UnauthorizedVerifier);
        }
        if flag_lookup(&self.seen, &att.event_id, false) {
            return Err(Error::EventReplay);
        }
        let idx = match find_key(&self.campaigns, &att.campaign_id) {
            Some(i) => i,
            None => {
                return Err(Error::CampaignNotFound);
            },
        };
        proof {
            lemma_key_index(self.campaigns@, att.campaign_id@, idx as int);
        }
        let budget = self.campaigns[idx].val.budget;
        let spent = self.campaigns[idx].val.spent;
        if self.campaigns[idx].val.status != CampaignStatus::Active {
            return Err(Error::CampaignClosed);
        }
        if !reg.is_publisher_allowed(&att.publisher) {
            return Err(Error::PublisherNotAllowed);
        }
        if pub_bps as u64 + view_bps as u64 > 10_000 {
            return Err(Error::InvalidSplit);
        }
        let fee = bps_mul(price, fee_bps);
        let paid_pub = bps_mul(price, pub_bps);
        let paid_view = bps_mul(price, view_bps);
        if fee + paid_pub + paid_view != price {
            return Err(Error::InvalidParam);
        }
        if price > budget - spent {
            return Err(Error::InsufficientBudget);
        }
        let entry = &mut self.campaigns[idx];
        entry.val.spent = entry.val.spent + price;
        proof {
            lemma_set_key(old(self).campaigns@, idx as int, self.campaigns@[idx as int]);
            assert forall|i: int|
                0 <= i < self.campaigns@.len() implies (#[trigger] self.campaigns@[i]).val.wf() by {
                if i != idx {
                    assert(self.campaigns@[i] == old(self).campaigns@[i]);
                }
            }
        }
        set_flag(&mut self.seen, &att.event_id, true);
        Ok((paid_pub, paid_view, fee))
    }

    pub fn get_campaign(&self, campaign_id: &Vec<u8>) -> (r: Option<&Campaign>)
        requires
            self.wf(),
        ensures
            match r {
                Some(c) => self.has_campaign(campaign_id@) && *c == self.campaign_of(campaign_id@),
                None => !self.has_campaign(campaign_id@),
            },
    {
        match find_key(&self.campaigns, campaign_id) {
            Some(i) => {
                proof {
                    lemma_key_index(self.campaigns@, campaign_id@, i as int);
                }
                Some(&self.campaigns[i].val)
            },
            None => None,
        }
    }

    /// The configuration as `(admin, token, price, pub_bps, view_bps,
    /// fee_bps, paused)`.
    pub fn get_config(&self) -> (r: (Vec<u8>, Vec<u8>, i128, u32, u32, u32, bool))
        requires
            self.is_init(),
        ensures
            r.0@ == self.cfg().admin@,
            r.1@ == self.cfg().token@,
            r.2 == self.cfg().price_per_event,
            r.3 == self.cfg().split_publisher_bps,
            r.4 == self.cfg().split_viewer_bps,
            r.5 == self.cfg().fee_bps,
            r.6 == self.cfg().paused,
    {
        let c = self.read_config();
        let admin = bytes_dup(&c.admin);
        let token = bytes_dup(&c.token);
        (admin, token, c.price_per_event, c.split_publisher_bps, c.split_viewer_bps, c.fee_bps, c.paused)
    }
}

} // verus!
