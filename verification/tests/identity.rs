use campaign_rewards::campaign::{CampaignInput, DepositInput};
use campaign_rewards::utils::{get_hash, verify, VerificationError};
use ed25519_dalek::Signer;

fn base_input() -> CampaignInput {
    CampaignInput {
        guild_id: "guild-1".to_string(),
        role_ids: vec!["role-a".to_string(), "role-b".to_string()],
        start_time: 100,
        end_time: 200,
        deposit: DepositInput::FT(("token.test".to_string(), 3_000_000)),
        claim_amount: 1_000_000,
    }
}

#[test]
fn test() {
    let hash = get_hash(&CampaignInput {
        guild_id: "935095654924042240".to_string(),
        role_ids: vec!["935096492606251038".to_string()],
        start_time: 1663162532391,
        end_time: 1663248753649,
        deposit: DepositInput::FT((
            "nepbottest.token3.bhc8521.testnet".to_string(),
            3000000000000000000000000,
        )),
        claim_amount: 1000000000000000000000000,
    });
    println!("{:?}", hash);
}

#[test]
fn identical_inputs_same_identifier() {
    assert_eq!(get_hash(&base_input()), get_hash(&base_input()));
}

#[test]
fn identifier_is_a_32_byte_digest_in_base58() {
    let id = get_hash(&base_input());
    let raw = bs58::decode(&id).into_vec().expect("identifier must be base58");
    assert_eq!(raw.len(), 32);
}

#[test]
fn each_field_changes_identifier() {
    let base = get_hash(&base_input());

    let mut m = base_input();
    m.guild_id = "guild-2".to_string();
    assert_ne!(get_hash(&m), base);

    let mut m = base_input();
    m.role_ids = vec!["role-a".to_string()];
    assert_ne!(get_hash(&m), base);

    let mut m = base_input();
    m.start_time = 101;
    assert_ne!(get_hash(&m), base);

    let mut m = base_input();
    m.end_time = 201;
    assert_ne!(get_hash(&m), base);

    let mut m = base_input();
    m.deposit = DepositInput::FT(("token.other".to_string(), 3_000_000));
    assert_ne!(get_hash(&m), base);

    let mut m = base_input();
    m.deposit = DepositInput::FT(("token.test".to_string(), 4_000_000));
    assert_ne!(get_hash(&m), base);

    let mut m = base_input();
    m.deposit = DepositInput::NFT(("token.test".to_string(), 3_000_000));
    assert_ne!(get_hash(&m), base);

    let mut m = base_input();
    m.claim_amount = 2_000_000;
    assert_ne!(get_hash(&m), base);
}

#[test]
fn field_concatenation_does_not_collide() {
    let mut a = base_input();
    a.guild_id = "ab".to_string();
    a.role_ids = vec!["c".to_string()];
    let mut b = base_input();
    b.guild_id = "a".to_string();
    b.role_ids = vec!["bc".to_string()];
    assert_ne!(get_hash(&a), get_hash(&b));
}

#[test]
fn verify_rejects_wrong_sizes_as_malformed() {
    assert_eq!(
        verify(b"msg".to_vec(), vec![0u8; 63], vec![0u8; 32]),
        Err(VerificationError::Malformed)
    );
    assert_eq!(
        verify(b"msg".to_vec(), vec![0u8; 64], vec![0u8; 31]),
        Err(VerificationError::Malformed)
    );
}

#[test]
fn verify_accepts_a_real_signature_and_rejects_a_tampered_one() {
    let sk = ed25519_dalek::SigningKey::from_bytes(&[7u8; 32]);
    let pk = sk.verifying_key().to_bytes().to_vec();
    let msg = b"campaign-id-text:user:12345".to_vec();
    let sig = sk.sign(&msg).to_bytes().to_vec();
    assert_eq!(verify(msg.clone(), sig.clone(), pk.clone()), Ok(()));

    let mut bad = sig.clone();
    bad[0] ^= 1;
    assert_eq!(verify(msg.clone(), bad, pk.clone()), Err(VerificationError::Invalid));

    let mut other = msg.clone();
    other[0] ^= 1;
    assert_eq!(verify(other, sig, pk), Err(VerificationError::Invalid));
}
