use advault::campaign::{Attestation, CampaignStatus, EventKind};
use advault::errors::Error;
use advault::registry::VerifierRegistry;
use advault::vault::AdVault;

fn id32(n: u8) -> Vec<u8> {
    let mut v = vec![0u8; 32];
    v[31] = n;
    v
}

const ADMIN: u8 = 1;
const TOKEN: u8 = 2;
const REGISTRY: u8 = 3;
const OWNER: u8 = 4;
const VERIFIER: u8 = 5;
const ADVERTISER: u8 = 6;
const PUBLISHER: u8 = 7;
const VIEWER: u8 = 8;

fn setup_vault(price: i128, pub_bps: u32, view_bps: u32, fee_bps: u32) -> AdVault {
    let mut vault = AdVault::new();
    let r = vault.init(
        id32(ADMIN),
        id32(TOKEN),
        id32(REGISTRY),
        price,
        pub_bps,
        view_bps,
        fee_bps,
    );
    assert_eq!(r, Ok(()));
    vault
}

fn setup_registry() -> VerifierRegistry {
    let mut reg = VerifierRegistry::new();
    reg.init(id32(OWNER));
    assert!(reg.add_verifier(&id32(VERIFIER)).is_ok());
    reg
}

fn attestation(event: u8, campaign: u8) -> Attestation {
    Attestation {
        event_id: id32(event),
        campaign_id: id32(campaign),
        publisher: id32(PUBLISHER),
        viewer: id32(VIEWER),
        event_kind: EventKind::Click,
        timestamp: 1_700_000_000,
        nonce: id32(200),
    }
}

#[test]
fn init_rejects_invalid_split() {
    let mut vault = AdVault::new();
    let r = vault.init(id32(ADMIN), id32(TOKEN), id32(REGISTRY), 100, 6000, 5000, 0);
    assert_eq!(r, Err(Error::InvalidSplit));
    assert!(!vault.is_protocol_paused());
}

#[test]
fn config_getter_reads_back() {
    let vault = setup_vault(100, 6000, 3000, 1000);
    let (admin, token, price, pub_bps, view_bps, fee_bps, paused) = vault.get_config();
    assert_eq!(admin, id32(ADMIN));
    assert_eq!(token, id32(TOKEN));
    assert_eq!(price, 100);
    assert_eq!(pub_bps, 6000);
    assert_eq!(view_bps, 3000);
    assert_eq!(fee_bps, 1000);
    assert!(!paused);
}

#[test]
fn governance_setters_update_config() {
    let mut vault = setup_vault(100, 6000, 3000, 1000);
    assert_eq!(vault.set_price_per_event(50), Ok(()));
    assert_eq!(vault.set_splits(5000, 4000), Ok(()));
    assert_eq!(vault.set_fee_bps(1000), Ok(()));
    let (_, _, price, pub_bps, view_bps, fee_bps, _) = vault.get_config();
    assert_eq!(price, 50);
    assert_eq!(pub_bps, 5000);
    assert_eq!(view_bps, 4000);
    assert_eq!(fee_bps, 1000);
    assert_eq!(vault.set_splits(6000, 5000), Err(Error::InvalidSplit));
    let (_, _, _, pub_bps, view_bps, _, _) = vault.get_config();
    assert_eq!(pub_bps, 5000);
    assert_eq!(view_bps, 4000);
}

#[test]
fn create_and_read_campaign() {
    let mut vault = setup_vault(100, 6000, 3000, 1000);
    assert_eq!(vault.create_campaign(id32(50), id32(ADVERTISER), 250), Ok(()));
    let c = vault.get_campaign(&id32(50)).expect("campaign should exist");
    assert_eq!(c.advertiser, id32(ADVERTISER));
    assert_eq!(c.budget, 250);
    assert_eq!(c.spent, 0);
    assert_eq!(c.status, CampaignStatus::Active);
    assert!(vault.get_campaign(&id32(51)).is_none());
}

#[test]
fn create_without_deposit_starts_empty() {
    let mut vault = setup_vault(100, 6000, 3000, 1000);
    assert_eq!(vault.create_campaign(id32(50), id32(ADVERTISER), 0), Ok(()));
    assert_eq!(vault.get_campaign(&id32(50)).unwrap().budget, 0);
    assert_eq!(vault.create_campaign(id32(51), id32(ADVERTISER), -5), Ok(()));
    assert_eq!(vault.get_campaign(&id32(51)).unwrap().budget, 0);
}

#[test]
fn duplicate_campaign_id_fails_regardless_of_caller() {
    let mut vault = setup_vault(100, 6000, 3000, 1000);
    assert_eq!(vault.create_campaign(id32(50), id32(ADVERTISER), 250), Ok(()));
    assert_eq!(
        vault.create_campaign(id32(50), id32(ADVERTISER), 100),
        Err(Error::InvalidParam)
    );
    assert_eq!(
        vault.create_campaign(id32(50), id32(ADMIN), 0),
        Err(Error::InvalidParam)
    );
    let c = vault.get_campaign(&id32(50)).unwrap();
    assert_eq!(c.budget, 250);
    assert_eq!(c.advertiser, id32(ADVERTISER));
}

#[test]
fn deposit_credits_budget() {
    let mut vault = setup_vault(100, 6000, 3000, 1000);
    assert_eq!(vault.create_campaign(id32(50), id32(ADVERTISER), 250), Ok(()));
    assert_eq!(vault.deposit(&id32(50), &id32(ADVERTISER), 100), Ok(()));
    assert_eq!(vault.get_campaign(&id32(50)).unwrap().budget, 350);
}

#[test]
fn deposit_errors() {
    let mut vault = setup_vault(100, 6000, 3000, 1000);
    assert_eq!(
        vault.deposit(&id32(50), &id32(ADVERTISER), 100),
        Err(Error::CampaignNotFound)
    );
    assert_eq!(vault.create_campaign(id32(50), id32(ADVERTISER), 250), Ok(()));
    assert_eq!(vault.close_campaign(&id32(50), &b"done".to_vec()), Ok(()));
    assert_eq!(
        vault.deposit(&id32(50), &id32(ADVERTISER), 100),
        Err(Error::CampaignClosed)
    );
}

#[test]
fn close_is_idempotent() {
    let mut vault = setup_vault(100, 6000, 3000, 1000);
    assert_eq!(vault.create_campaign(id32(50), id32(ADVERTISER), 250), Ok(()));
    assert_eq!(vault.close_campaign(&id32(50), &b"first".to_vec()), Ok(()));
    assert_eq!(vault.get_campaign(&id32(50)).unwrap().status, CampaignStatus::Closed);
    assert_eq!(vault.close_campaign(&id32(50), &b"again".to_vec()), Ok(()));
    assert_eq!(vault.get_campaign(&id32(50)).unwrap().status, CampaignStatus::Closed);
    assert_eq!(
        vault.close_campaign(&id32(51), &b"missing".to_vec()),
        Err(Error::CampaignNotFound)
    );
}

#[test]
fn refund_requires_closed_campaign() {
    let mut vault = setup_vault(100, 6000, 3000, 1000);
    assert_eq!(vault.create_campaign(id32(50), id32(ADVERTISER), 250), Ok(()));
    assert_eq!(
        vault.refund_unspent(&id32(50), &id32(ADVERTISER)),
        Err(Error::InvalidParam)
    );
    assert_eq!(
        vault.refund_unspent(&id32(51), &id32(ADVERTISER)),
        Err(Error::CampaignNotFound)
    );
}

#[test]
fn refund_drains_unspent_then_repeats_as_noop() {
    let mut vault = setup_vault(100, 6000, 3000, 1000);
    let reg = setup_registry();
    assert_eq!(vault.create_campaign(id32(50), id32(ADVERTISER), 250), Ok(()));
    assert_eq!(
        vault.submit_event(&reg, &attestation(60, 50), &id32(VERIFIER)),
        Ok((60, 30, 10))
    );
    assert_eq!(vault.close_campaign(&id32(50), &b"done".to_vec()), Ok(()));
    assert_eq!(vault.refund_unspent(&id32(50), &id32(ADVERTISER)), Ok(150));
    let c = vault.get_campaign(&id32(50)).unwrap();
    assert_eq!(c.budget, 100);
    assert_eq!(c.spent, 100);
    assert_eq!(vault.refund_unspent(&id32(50), &id32(ADVERTISER)), Ok(0));
    assert_eq!(vault.refund_unspent(&id32(50), &id32(ADVERTISER)), Ok(0));
    let c = vault.get_campaign(&id32(50)).unwrap();
    assert_eq!(c.budget, 100);
    assert_eq!(c.spent, 100);
}

#[test]
fn scenario_exact_split_and_exhaustion() {
    let mut vault = setup_vault(100, 6000, 3000, 1000);
    let reg = setup_registry();
    assert_eq!(vault.create_campaign(id32(50), id32(ADVERTISER), 250), Ok(()));
    assert_eq!(
        vault.submit_event(&reg, &attestation(60, 50), &id32(VERIFIER)),
        Ok((60, 30, 10))
    );
    assert_eq!(
        vault.submit_event(&reg, &attestation(61, 50), &id32(VERIFIER)),
        Ok((60, 30, 10))
    );
    let c = vault.get_campaign(&id32(50)).unwrap();
    assert_eq!(c.spent, 200);
    assert_eq!(c.budget, 250);
    assert_eq!(
        vault.submit_event(&reg, &attestation(62, 50), &id32(VERIFIER)),
        Err(Error::InsufficientBudget)
    );
    let c = vault.get_campaign(&id32(50)).unwrap();
    assert_eq!(c.spent, 200);
}

#[test]
fn replayed_event_is_rejected_without_state_change() {
    let mut vault = setup_vault(100, 6000, 3000, 1000);
    let reg = setup_registry();
    assert_eq!(vault.create_campaign(id32(50), id32(ADVERTISER), 250), Ok(()));
    assert_eq!(
        vault.submit_event(&reg, &attestation(60, 50), &id32(VERIFIER)),
        Ok((60, 30, 10))
    );
    assert_eq!(
        vault.submit_event(&reg, &attestation(60, 50), &id32(VERIFIER)),
        Err(Error::EventReplay)
    );
    let c = vault.get_campaign(&id32(50)).unwrap();
    assert_eq!(c.spent, 100);
    assert_eq!(c.budget, 250);
}

#[test]
fn unauthorized_verifier_is_rejected() {
    let mut vault = setup_vault(100, 6000, 3000, 1000);
    let mut reg = setup_registry();
    assert_eq!(vault.create_campaign(id32(50), id32(ADVERTISER), 250), Ok(()));
    assert_eq!(
        vault.submit_event(&reg, &attestation(60, 50), &id32(99)),
        Err(Error::UnauthorizedVerifier)
    );
    assert!(reg.remove_verifier(&id32(VERIFIER)).is_ok());
    assert_eq!(
        vault.submit_event(&reg, &attestation(60, 50), &id32(VERIFIER)),
        Err(Error::UnauthorizedVerifier)
    );
}

#[test]
fn denied_publisher_is_rejected() {
    let mut vault = setup_vault(100, 6000, 3000, 1000);
    let mut reg = setup_registry();
    assert_eq!(vault.create_campaign(id32(50), id32(ADVERTISER), 250), Ok(()));
    assert!(reg.set_publisher_status(&id32(PUBLISHER), false).is_ok());
    assert_eq!(
        vault.submit_event(&reg, &attestation(60, 50), &id32(VERIFIER)),
        Err(Error::PublisherNotAllowed)
    );
    assert!(reg.set_publisher_status(&id32(PUBLISHER), true).is_ok());
    assert_eq!(
        vault.submit_event(&reg, &attestation(60, 50), &id32(VERIFIER)),
        Ok((60, 30, 10))
    );
}

#[test]
fn inexact_split_fails_every_settlement() {
    let mut vault = setup_vault(100, 3333, 3333, 0);
    let reg = setup_registry();
    assert_eq!(vault.create_campaign(id32(50), id32(ADVERTISER), 250), Ok(()));
    assert_eq!(
        vault.submit_event(&reg, &attestation(60, 50), &id32(VERIFIER)),
        Err(Error::InvalidParam)
    );
    assert_eq!(
        vault.submit_event(&reg, &attestation(61, 50), &id32(VERIFIER)),
        Err(Error::InvalidParam)
    );
    assert_eq!(vault.get_campaign(&id32(50)).unwrap().spent, 0);
}

#[test]
fn submit_event_campaign_errors() {
    let mut vault = setup_vault(100, 6000, 3000, 1000);
    let reg = setup_registry();
    assert_eq!(
        vault.submit_event(&reg, &attestation(60, 50), &id32(VERIFIER)),
        Err(Error::CampaignNotFound)
    );
    assert_eq!(vault.create_campaign(id32(50), id32(ADVERTISER), 250), Ok(()));
    assert_eq!(vault.close_campaign(&id32(50), &b"done".to_vec()), Ok(()));
    assert_eq!(
        vault.submit_event(&reg, &attestation(60, 50), &id32(VERIFIER)),
        Err(Error::CampaignClosed)
    );
}

#[test]
fn pause_gates_create_and_submit_only() {
    let mut vault = setup_vault(100, 6000, 3000, 1000);
    let reg = setup_registry();
    assert_eq!(vault.create_campaign(id32(50), id32(ADVERTISER), 250), Ok(()));
    vault.pause_protocol();
    assert!(vault.is_protocol_paused());
    assert_eq!(
        vault.create_campaign(id32(51), id32(ADVERTISER), 0),
        Err(Error::ProtocolPaused)
    );
    assert_eq!(
        vault.submit_event(&reg, &attestation(60, 50), &id32(VERIFIER)),
        Err(Error::ProtocolPaused)
    );
    assert_eq!(vault.deposit(&id32(50), &id32(ADVERTISER), 100), Ok(()));
    assert_eq!(vault.close_campaign(&id32(50), &b"paused".to_vec()), Ok(()));
    assert_eq!(vault.refund_unspent(&id32(50), &id32(ADVERTISER)), Ok(350));
    vault.unpause_protocol();
    assert!(!vault.is_protocol_paused());
    assert_eq!(vault.create_campaign(id32(51), id32(ADVERTISER), 0), Ok(()));
}

#[test]
fn price_change_applies_to_later_settlements() {
    let mut vault = setup_vault(100, 6000, 3000, 1000);
    let reg = setup_registry();
    assert_eq!(vault.create_campaign(id32(50), id32(ADVERTISER), 250), Ok(()));
    assert_eq!(vault.set_price_per_event(50), Ok(()));
    assert_eq!(
        vault.submit_event(&reg, &attestation(60, 50), &id32(VERIFIER)),
        Ok((30, 15, 5))
    );
    assert_eq!(vault.get_campaign(&id32(50)).unwrap().spent, 50);
}

#[test]
fn zero_fee_split_pays_no_fee() {
    let mut vault = setup_vault(100, 7000, 3000, 0);
    let reg = setup_registry();
    assert_eq!(vault.create_campaign(id32(50), id32(ADVERTISER), 100), Ok(()));
    assert_eq!(
        vault.submit_event(&reg, &attestation(60, 50), &id32(VERIFIER)),
        Ok((70, 30, 0))
    );
    let c = vault.get_campaign(&id32(50)).unwrap();
    assert_eq!(c.spent, 100);
    assert_eq!(c.budget, 100);
    assert_eq!(
        vault.submit_event(&reg, &attestation(61, 50), &id32(VERIFIER)),
        Err(Error::InsufficientBudget)
    );
}
