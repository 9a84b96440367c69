use campaign_rewards::campaign::{
    Campaign, CampaignInput, ClaimError, DepositInput, RedeemError,
};
use campaign_rewards::resolver::SettleError;
use campaign_rewards::utils::{get_hash, VerificationError};
use campaign_rewards::{ClaimTxnError, Contract, CreateError, RedeemTxnError};
use ed25519_dalek::Signer;

const START: u64 = 1_000_000_000_000;
const END: u64 = 2_000_000_000_000;
const NOW: u64 = 1_500_000_000_000;
const UNIT: u128 = 1_000_000;
const TARGET: u128 = 3_000_000;

fn signer() -> ed25519_dalek::SigningKey {
    ed25519_dalek::SigningKey::from_bytes(&[9u8; 32])
}

fn pk_b58() -> String {
    bs58::encode(signer().verifying_key().to_bytes()).into_string()
}

fn sign_claim(hash: &str, user: &str, timestamp: u64) -> String {
    let msg = format!("{}{}{}", hash, user, timestamp).into_bytes();
    bs58::encode(signer().sign(&msg).to_bytes().as_slice()).into_string()
}

fn ft_input(target: u128, unit: u128) -> CampaignInput {
    CampaignInput {
        guild_id: "guild-1".to_string(),
        role_ids: vec!["role-a".to_string()],
        start_time: START,
        end_time: END,
        deposit: DepositInput::FT(("token.test".to_string(), target)),
        claim_amount: unit,
    }
}

/// A funded contract with one campaign, returning its identifier.
fn funded_contract(target: u128, unit: u128, funded: u128) -> (Contract, String) {
    let mut c = Contract::new("admin".to_string(), pk_b58());
    let id = c
        .add_campaign(ft_input(target, unit), "owner".to_string())
        .expect("creation must succeed");
    assert_eq!(
        c.ft_on_transfer("token.test".to_string(), funded, id.clone()),
        Ok(0)
    );
    (c, id)
}

fn claim_as(c: &mut Contract, id: &str, user: &str, now: u64) -> Result<u128, ClaimTxnError> {
    let ts = now - 60_000_000_000;
    let intent = c.claim(
        id.to_string(),
        user.to_string(),
        ts,
        sign_claim(id, user, ts),
        format!("{}.near", user),
        now,
    )?;
    assert_eq!(intent.receiver_id, format!("{}.near", user));
    assert_eq!(intent.contract_id, "token.test");
    Ok(intent.amount)
}

#[test]
fn create_rejects_underfunded_target() {
    let mut c = Contract::new("admin".to_string(), pk_b58());
    assert_eq!(
        c.add_campaign(ft_input(UNIT - 1, UNIT), "owner".to_string()),
        Err(CreateError::InsufficientFunding)
    );
}

#[test]
fn create_rejects_non_fungible_deposit() {
    let mut c = Contract::new("admin".to_string(), pk_b58());
    let mut input = ft_input(TARGET, UNIT);
    input.deposit = DepositInput::NFT(("nft.test".to_string(), TARGET));
    assert_eq!(
        c.add_campaign(input, "owner".to_string()),
        Err(CreateError::Unsupported)
    );
}

#[test]
fn create_returns_content_identifier_and_lists_by_guild() {
    let (c, id) = funded_contract(TARGET, UNIT, TARGET);
    assert_eq!(id, get_hash(&ft_input(TARGET, UNIT)));
    let infos = c.get_campaigns_by_guild("guild-1".to_string());
    assert_eq!(infos.len(), 1);
    assert_eq!(infos[0].hash, id);
    assert_eq!(infos[0].owner_id, "owner");
    assert_eq!(infos[0].left_amount, TARGET);
    assert_eq!(infos[0].total_amount, TARGET);
    assert_eq!(infos[0].claim_amount, UNIT);
    assert_eq!(infos[0].claimed_count, 0);
    assert!(c.get_campaigns_by_guild("guild-2".to_string()).is_empty());
    assert!(c.get_campaign("unknown".to_string()).is_none());
}

#[test]
fn capacity_scenario_three_claims_then_exhausted() {
    let (mut c, id) = funded_contract(TARGET, UNIT, 3_000_000);
    for user in ["alice", "bob", "carol"] {
        assert_eq!(claim_as(&mut c, &id, user, NOW), Ok(UNIT));
        assert_eq!(c.on_claim(id.clone(), user.to_string(), true), Ok(()));
        assert!(c.check_is_claimed(user.to_string(), id.clone()));
    }
    let info = c.get_campaign(id.clone()).unwrap();
    assert_eq!(info.claimed_count, 3);
    assert_eq!(
        claim_as(&mut c, &id, "dave", NOW),
        Err(ClaimTxnError::Eligibility(ClaimError::CapacityExhausted))
    );
}

#[test]
fn claim_twice_is_already_claimed() {
    let (mut c, id) = funded_contract(TARGET, UNIT, TARGET);
    assert_eq!(claim_as(&mut c, &id, "alice", NOW), Ok(UNIT));
    assert_eq!(c.on_claim(id.clone(), "alice".to_string(), true), Ok(()));
    assert_eq!(
        claim_as(&mut c, &id, "alice", NOW),
        Err(ClaimTxnError::Eligibility(ClaimError::AlreadyClaimed))
    );
}

#[test]
fn failed_transfer_leaves_no_claim_and_allows_retry() {
    let (mut c, id) = funded_contract(TARGET, UNIT, TARGET);
    assert_eq!(claim_as(&mut c, &id, "alice", NOW), Ok(UNIT));
    assert_eq!(
        c.on_claim(id.clone(), "alice".to_string(), false),
        Err(SettleError::TransferFailed)
    );
    assert!(!c.check_is_claimed("alice".to_string(), id.clone()));
    assert_eq!(claim_as(&mut c, &id, "alice", NOW), Ok(UNIT));
}

#[test]
fn window_boundaries_are_inclusive() {
    let (mut c, id) = funded_contract(TARGET, UNIT, TARGET);
    assert_eq!(
        claim_as(&mut c, &id, "alice", START - 1),
        Err(ClaimTxnError::Eligibility(ClaimError::NotStarted))
    );
    assert_eq!(claim_as(&mut c, &id, "alice", START), Ok(UNIT));
    assert_eq!(claim_as(&mut c, &id, "bob", END), Ok(UNIT));
    assert_eq!(
        claim_as(&mut c, &id, "carol", END + 1),
        Err(ClaimTxnError::Eligibility(ClaimError::Expired))
    );
}

#[test]
fn already_claimed_wins_over_window_state() {
    let mut campaign = Campaign::new(
        ft_input(TARGET, UNIT),
        "some-id".to_string(),
        "owner".to_string(),
    );
    campaign.on_deposit(TARGET);
    campaign.on_claim("alice".to_string());
    let sender = "alice.near".to_string();
    assert_eq!(
        campaign.claim(&"alice".to_string(), &sender, START - 1),
        Err(ClaimError::AlreadyClaimed)
    );
    assert_eq!(
        campaign.claim(&"alice".to_string(), &sender, END + 1),
        Err(ClaimError::AlreadyClaimed)
    );
}

#[test]
fn unfunded_campaign_has_no_capacity() {
    let mut c = Contract::new("admin".to_string(), pk_b58());
    let id = c
        .add_campaign(ft_input(TARGET, UNIT), "owner".to_string())
        .unwrap();
    assert_eq!(
        claim_as(&mut c, &id, "alice", NOW),
        Err(ClaimTxnError::Eligibility(ClaimError::CapacityExhausted))
    );
}

#[test]
fn signature_freshness_window_is_120_seconds() {
    let (mut c, id) = funded_contract(TARGET, UNIT, TARGET);
    let stale = NOW - 121_000_000_000;
    assert_eq!(
        c.claim(
            id.clone(),
            "alice".to_string(),
            stale,
            sign_claim(&id, "alice", stale),
            "alice.near".to_string(),
            NOW
        ),
        Err(ClaimTxnError::SignatureExpired)
    );
    let fresh = NOW - 119_000_000_000;
    let intent = c
        .claim(
            id.clone(),
            "alice".to_string(),
            fresh,
            sign_claim(&id, "alice", fresh),
            "alice.near".to_string(),
            NOW,
        )
        .expect("a 119 second old authorization is fresh");
    assert_eq!(intent.amount, UNIT);
}

#[test]
fn claim_rejects_bad_base58_and_wrong_signature() {
    let (mut c, id) = funded_contract(TARGET, UNIT, TARGET);
    let ts = NOW - 60_000_000_000;
    assert_eq!(
        c.claim(
            id.clone(),
            "alice".to_string(),
            ts,
            "0OIl".to_string(),
            "alice.near".to_string(),
            NOW
        ),
        Err(ClaimTxnError::Verification(VerificationError::Malformed))
    );
    assert_eq!(
        c.claim(
            id.clone(),
            "alice".to_string(),
            ts,
            sign_claim(&id, "mallory", ts),
            "alice.near".to_string(),
            NOW
        ),
        Err(ClaimTxnError::Verification(VerificationError::Invalid))
    );
}

#[test]
fn claim_unknown_campaign_is_not_found() {
    let mut c = Contract::new("admin".to_string(), pk_b58());
    let ts = NOW - 60_000_000_000;
    assert_eq!(
        c.claim(
            "missing".to_string(),
            "alice".to_string(),
            ts,
            sign_claim("missing", "alice", ts),
            "alice.near".to_string(),
            NOW
        ),
        Err(ClaimTxnError::NotFound)
    );
    assert_eq!(
        c.on_claim("missing".to_string(), "alice".to_string(), true),
        Err(SettleError::NotFound)
    );
    assert_eq!(
        c.redeem("missing".to_string(), "admin".to_string()),
        Err(RedeemTxnError::NotFound)
    );
    assert_eq!(
        c.ft_on_transfer("token.test".to_string(), 1, "missing".to_string()),
        Err(SettleError::NotFound)
    );
}

#[test]
fn redeem_by_non_owner_is_unauthorized_and_changes_nothing() {
    let (mut c, id) = funded_contract(TARGET, UNIT, TARGET);
    assert_eq!(
        c.redeem(id.clone(), "mallory".to_string()),
        Err(RedeemTxnError::Redeem(RedeemError::Unauthorized))
    );
    let info = c.get_campaign(id).unwrap();
    assert_eq!(info.left_amount, TARGET);
    assert_eq!(info.claimed_count, 0);
}

#[test]
fn redeem_residual_after_partial_claims() {
    let (mut c, id) = funded_contract(4_000_000, UNIT, 3_500_000);
    for user in ["alice", "bob"] {
        claim_as(&mut c, &id, user, NOW).unwrap();
        c.on_claim(id.clone(), user.to_string(), true).unwrap();
    }
    let intent = c.redeem(id.clone(), "owner".to_string()).unwrap();
    assert_eq!(intent.receiver_id, "owner");
    assert_eq!(intent.amount, 1_500_000);
}

#[test]
fn redeem_after_full_capacity_then_again_transfers_zero() {
    let (mut c, id) = funded_contract(TARGET, UNIT, 3_000_000);
    for user in ["alice", "bob", "carol"] {
        claim_as(&mut c, &id, user, NOW).unwrap();
        c.on_claim(id.clone(), user.to_string(), true).unwrap();
    }
    let intent = c.redeem(id.clone(), "owner".to_string()).unwrap();
    assert_eq!(intent.amount, 0);
    assert_eq!(c.on_redeem(id.clone(), true), Ok(()));
    assert_eq!(c.get_campaign(id.clone()).unwrap().left_amount, 0);
    let again = c.redeem(id.clone(), "owner".to_string()).unwrap();
    assert_eq!(again.amount, 0);
}

#[test]
fn failed_redeem_settlement_keeps_the_pool() {
    let (mut c, id) = funded_contract(TARGET, UNIT, TARGET);
    c.redeem(id.clone(), "owner".to_string()).unwrap();
    assert_eq!(c.on_redeem(id.clone(), false), Err(SettleError::TransferFailed));
    assert_eq!(c.get_campaign(id).unwrap().left_amount, TARGET);
}

#[test]
fn identical_creation_overwrites_and_indexes_twice() {
    let mut c = Contract::new("admin".to_string(), pk_b58());
    let id1 = c
        .add_campaign(ft_input(TARGET, UNIT), "owner".to_string())
        .unwrap();
    let id2 = c
        .add_campaign(ft_input(TARGET, UNIT), "other-owner".to_string())
        .unwrap();
    assert_eq!(id1, id2);
    // Last write wins in the store; the grouping index records each creation.
    assert_eq!(c.get_campaign(id1.clone()).unwrap().owner_id, "other-owner");
    assert_eq!(c.get_campaigns_by_guild("guild-1".to_string()).len(), 2);
}

#[test]
fn funding_accumulates_and_check_claimed_handles_unknowns() {
    let (mut c, id) = funded_contract(TARGET, UNIT, 1_000_000);
    assert_eq!(
        c.ft_on_transfer("token.test".to_string(), 500_000, id.clone()),
        Ok(0)
    );
    assert_eq!(c.get_campaign(id.clone()).unwrap().left_amount, 1_500_000);
    assert!(!c.check_is_claimed("alice".to_string(), id.clone()));
    assert!(!c.check_is_claimed("alice".to_string(), "missing".to_string()));
}

#[test]
fn nft_variant_is_unsupported() {
    let mut input = ft_input(TARGET, UNIT);
    input.deposit = DepositInput::NFT(("nft.test".to_string(), TARGET));
    let c = Campaign::new(input, "some-id".to_string(), "owner".to_string());
    let sender = "alice.near".to_string();
    assert_eq!(
        c.claim(&"alice".to_string(), &sender, NOW),
        Err(ClaimError::Unsupported)
    );
    assert_eq!(c.redeem(&"owner".to_string()), Err(RedeemError::Unsupported));
    assert_eq!(c.get_left_amount(), 0);
    assert_eq!(c.get_total_amount(), TARGET);
}

#[test]
fn confirm_claim_is_idempotent() {
    let mut campaign = Campaign::new(
        ft_input(TARGET, UNIT),
        "some-id".to_string(),
        "owner".to_string(),
    );
    campaign.on_deposit(TARGET);
    campaign.on_claim("alice".to_string());
    campaign.on_claim("alice".to_string());
    assert!(campaign.check_claimed("alice".to_string()));
    assert_eq!(campaign.get_campaign_info().claimed_count, 1);
}
