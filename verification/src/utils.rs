use vstd::prelude::*;
use vstd::slice::slice_to_vec;
use sha2::Digest;
use ed25519_dalek::Verifier;

verus! {

use crate::campaign::{CampaignInput, DepositInput};
use vstd::utf8::encode_utf8;

/// What SHA-256 returns for a byte sequence: a function of the bytes alone.
pub uninterp spec fn sha256_of(bytes: Seq<u8>) -> Seq<u8>;

/// What base58 encoding (Bitcoin alphabet) returns for a byte sequence.
pub uninterp spec fn base58_of(bytes: Seq<u8>) -> Seq<char>;

/// What base58 decoding returns for a text: the bytes, or nothing when the
/// text is not valid base58.
pub uninterp spec fn base58_decode_of(text: Seq<char>) -> Option<Seq<u8>>;

/// Whether `sign` is a valid Ed25519 signature of `message` under the
/// 32-byte public key `pk`: a function of the three arguments alone.
pub uninterp spec fn ed25519_valid(message: Seq<u8>, sign: Seq<u8>, pk: Seq<u8>) -> bool;

/// Relies on sha2::Sha256::digest: the SHA-256 digest of the input, which
/// is 32 bytes long and depends on the input bytes alone.
#[verifier::external_body]
pub(crate) fn sha256(bytes: &Vec<u8>) -> (r: Vec<u8>)
    ensures
        r@ == sha256_of(bytes@),
        r@.len() == 32,
{
    sha2::Sha256::digest(bytes.as_slice()).to_vec()
}

/// Relies on bs58::encode with the default (Bitcoin) alphabet: the base58
/// text for the bytes, a function of the bytes alone.
#[verifier::external_body]
pub(crate) fn b58_encode(bytes: &Vec<u8>) -> (r: String)
    ensures
        r@ == base58_of(bytes@),
{
    bs58::encode(bytes.as_slice()).into_string()
}

/// Relies on bs58::decode with the default (Bitcoin) alphabet: the decoded
/// bytes exactly when the text is valid base58, a function of the text alone.
#[verifier::external_body]
pub(crate) fn b58_decode(text: &String) -> (r: Option<Vec<u8>>)
    ensures
        r is Some <==> base58_decode_of(text@) is Some,
        r matches Some(v) ==> base58_decode_of(text@) == Some(v@),
{
    match bs58::decode(text.as_str()).into_vec() {
        Ok(v) => Some(v),
        Err(_) => None,
    }
}

/// Relies on ed25519_dalek::VerifyingKey::verify: whether the signature is
/// valid for the message under the key, deterministic in its arguments.
/// A 32-byte key the crate cannot parse as a curve point verifies nothing.
#[verifier::external_body]
pub(crate) fn ed25519_check(message: &Vec<u8>, sign: &Vec<u8>, pk: &Vec<u8>) -> (r: bool)
    requires
        sign@.len() == 64,
        pk@.len() == 32,
    ensures
        r == ed25519_valid(message@, sign@, pk@),
{
    let pk_bytes: [u8; 32] = match pk.as_slice().try_into() {
        Ok(a) => a,
        Err(_) => return false,
    };
    let sig_bytes: [u8; 64] = match sign.as_slice().try_into() {
        Ok(a) => a,
        Err(_) => return false,
    };
    let key = match ed25519_dalek::VerifyingKey::from_bytes(&pk_bytes) {
        Ok(k) => k,
        Err(_) => return false,
    };
    let sig = ed25519_dalek::Signature::from_bytes(&sig_bytes);
    key.verify(message.as_slice(), &sig).is_ok()
}

/// Why a signature check was rejected.
#[derive(Clone, Copy, Debug, PartialEq, Eq)]
pub enum VerificationError {
    /// Signature or key does not have the expected fixed size.
    Malformed,
    /// Cryptographic verification failed.
    Invalid,
}

/// What `verify` returns: `Malformed` unless the signature is 64 bytes and
/// the key 32, then `Ok` exactly when the signature is cryptographically
/// valid.
pub open spec fn spec_verify(message: Seq<u8>, sign: Seq<u8>, pk: Seq<u8>) -> Result<(), VerificationError> {
    if sign.len() != 64 || pk.len() != 32 {
        Err(VerificationError::Malformed)
    } else if ed25519_valid(message, sign, pk) {
        Ok(())
    } else {
        Err(VerificationError::Invalid)
    }
}

/// Validate a claim authorization: the signature must have the fixed
/// Ed25519 encoding sizes and verify over the message under the key.
pub fn verify(message: Vec<u8>, sign: Vec<u8>, pk: Vec<u8>) -> (r: Result<(), VerificationError>)
    ensures
        r == spec_verify(message@, sign@, pk@),
{
    if sign.len() != 64 || pk.len() != 32 {
        Err(VerificationError::Malformed)
    } else if ed25519_check(&message, &sign, &pk) {
        Ok(())
    } else {
        Err(VerificationError::Invalid)
    }
}

/// The decimal digits of `n`, most significant first, as ASCII bytes.
pub open spec fn dec_digits(n: nat) -> Seq<u8>
    decreases n,
{
    if n < 10 {
        seq![(48 + n) as u8]
    } else {
        dec_digits(n / 10).push((48 + n % 10) as u8)
    }
}

/// Append the decimal digits of `n` to `out`.
fn push_dec(out: &mut Vec<u8>, n: u128)
    ensures
        final(out)@ == old(out)@ + dec_digits(n as nat),
    decreases n,
{
    if n < 10 {
        out.push(48 + n as u8);
        assert(out@ =~= old(out)@ + dec_digits(n as nat));
    } else {
        proof {
            vstd::arithmetic::div_mod::lemma_div_decreases(n as int, 10);
        }
        push_dec(out, n / 10);
        out.push(48 + (n % 10) as u8);
        assert(out@ =~= old(out)@ + dec_digits(n as nat));
    }
}

/// Canonical encoding of a number: its decimal digits and a terminator.
pub open spec fn spec_canon_num(n: nat) -> Seq<u8> {
    dec_digits(n).push(44u8)
}

/// Canonical encoding of a text: the byte length, then the UTF-8 bytes.
pub open spec fn spec_canon_text(s: Seq<char>) -> Seq<u8> {
    spec_canon_num(encode_utf8(s).len()) + encode_utf8(s)
}

/// Canonical encoding of a list of texts, in order.
pub open spec fn spec_canon_texts(items: Seq<Seq<char>>) -> Seq<u8>
    decreases items.len(),
{
    if items.len() == 0 {
        Seq::empty()
    } else {
        spec_canon_texts(items.drop_last()) + spec_canon_text(items.last())
    }
}

/// Canonical encoding of a deposit specification: a variant tag, the asset
/// account, the declared target.
pub open spec fn spec_canon_deposit(d: DepositInput) -> Seq<u8> {
    match d {
        DepositInput::FT(v) => seq![70u8] + spec_canon_text(v.0@) + spec_canon_num(v.1 as nat),
        DepositInput::NFT(v) => seq![78u8] + spec_canon_text(v.0@) + spec_canon_num(v.1 as nat),
    }
}

/// Canonical byte encoding of a creation record: every defining field in a
/// fixed order, self-delimited. It depends only on the fields' views.
pub open spec fn spec_canon_input(c: CampaignInput) -> Seq<u8> {
    spec_canon_text(c.guild_id@) + spec_canon_num(c.role_ids.deep_view().len())
        + spec_canon_texts(c.role_ids.deep_view()) + spec_canon_num(c.start_time as nat)
        + spec_canon_num(c.end_time as nat) + spec_canon_deposit(c.deposit)
        + spec_canon_num(c.claim_amount as nat)
}

/// The campaign identifier: base58 text of the SHA-256 digest of the
/// creation record's canonical encoding.
pub open spec fn spec_campaign_id(c: CampaignInput) -> Seq<char> {
    base58_of(sha256_of(spec_canon_input(c)))
}

/// Append the canonical encoding of a number.
fn push_canon_num(out: &mut Vec<u8>, n: u128)
    ensures
        final(out)@ == old(out)@ + spec_canon_num(n as nat),
{
    push_dec(out, n);
    out.push(44);
    assert(out@ =~= old(out)@ + spec_canon_num(n as nat));
}

/// Append the canonical encoding of a text.
fn push_canon_text(out: &mut Vec<u8>, s: &String)
    ensures
        final(out)@ == old(out)@ + spec_canon_text(s@),
{
    let bytes: &[u8] = s.as_str().as_bytes();
    push_canon_num(out, bytes.len() as u128);
    let mut tail: Vec<u8> = slice_to_vec(bytes);
    out.append(&mut tail);
    assert(out@ =~= old(out)@ + spec_canon_text(s@));
}

/// Append the canonical encoding of a list of texts: its length, then each
/// entry in order.
fn push_canon_texts(out: &mut Vec<u8>, items: &Vec<String>)
    ensures
        final(out)@ == old(out)@ + spec_canon_num(items.deep_view().len())
            + spec_canon_texts(items.deep_view()),
{
    let n: usize = items.len();
    push_canon_num(out, n as u128);
    for i in 0..n
        invariant
            n == items@.len(),
            out@ == old(out)@ + spec_canon_num(items.deep_view().len())
                + spec_canon_texts(items.deep_view().take(i as int)),
    {
        push_canon_text(out, &items[i]);
        proof {
            let dv = items.deep_view();
            assert(dv.take(i + 1).drop_last() =~= dv.take(i as int));
            assert(dv.take(i + 1).last() == dv[i as int]);
            assert(items@[i as int]@ == dv[i as int]);
        }
        assert(out@ =~= old(out)@ + spec_canon_num(items.deep_view().len())
            + spec_canon_texts(items.deep_view().take(i + 1)));
    }
    proof {
        assert(items.deep_view().take(n as int) =~= items.deep_view());
    }
}

/// Compute the deterministic identifier of a creation record: equal
/// defining fields give the equal identifier.
pub fn get_hash(campaign: &CampaignInput) -> (r: String)
    ensures
        r@ == spec_campaign_id(*campaign),
{
    let mut bytes: Vec<u8> = Vec::new();
    push_canon_text(&mut bytes, &campaign.guild_id);
    push_canon_texts(&mut bytes, &campaign.role_ids);
    push_canon_num(&mut bytes, campaign.start_time as u128);
    push_canon_num(&mut bytes, campaign.end_time as u128);
    match &campaign.deposit {
        DepositInput::FT(v) => {
            bytes.push(70);
            push_canon_text(&mut bytes, &v.0);
            push_canon_num(&mut bytes, v.1);
        },
        DepositInput::NFT(v) => {
            bytes.push(78);
            push_canon_text(&mut bytes, &v.0);
            push_canon_num(&mut bytes, v.1);
        },
    }
    push_canon_num(&mut bytes, campaign.claim_amount);
    assert(bytes@ =~= spec_canon_input(*campaign));
    let digest = sha256(&bytes);
    b58_encode(&digest)
}

/// The signed message of a claim authorization: identifier text, account
/// text and decimal timestamp, as a byte-exact concatenation with no
/// delimiters. The off-chain signer must frame its message the same way.
pub open spec fn spec_claim_message(hash: Seq<char>, user: Seq<char>, timestamp: u64) -> Seq<u8> {
    encode_utf8(hash) + encode_utf8(user) + dec_digits(timestamp as nat)
}

/// Build the message a claim authorization signs.
pub fn claim_message(hash: &String, user: &String, timestamp: u64) -> (r: Vec<u8>)
    ensures
        r@ == spec_claim_message(hash@, user@, timestamp),
{
    let mut out: Vec<u8> = Vec::new();
    let mut hash_bytes: Vec<u8> = slice_to_vec(hash.as_str().as_bytes());
    out.append(&mut hash_bytes);
    let mut user_bytes: Vec<u8> = slice_to_vec(user.as_str().as_bytes());
    out.append(&mut user_bytes);
    push_dec(&mut out, timestamp as u128);
    assert(out@ =~= spec_claim_message(hash@, user@, timestamp));
    out
}

/// Field-by-field view equality of two deposit specifications.
pub open spec fn spec_deposit_input_eq(a: DepositInput, b: DepositInput) -> bool {
    match (a, b) {
        (DepositInput::FT(x), DepositInput::FT(y)) => x.0@ == y.0@ && x.1 == y.1,
        (DepositInput::NFT(x), DepositInput::NFT(y)) => x.0@ == y.0@ && x.1 == y.1,
        _ => false,
    }
}

/// View equality of every defining field of two creation records.
pub open spec fn spec_input_eq(a: CampaignInput, b: CampaignInput) -> bool {
    &&& a.guild_id@ == b.guild_id@
    &&& a.role_ids.deep_view() == b.role_ids.deep_view()
    &&& a.start_time == b.start_time
    &&& a.end_time == b.end_time
    &&& spec_deposit_input_eq(a.deposit, b.deposit)
    &&& a.claim_amount == b.claim_amount
}

/// Two creation records that agree on every defining field get the same
/// identifier: the identifier is a function of the defining fields alone.
pub proof fn lemma_campaign_id_deterministic(a: CampaignInput, b: CampaignInput)
    requires
        spec_input_eq(a, b),
    ensures
        spec_campaign_id(a) == spec_campaign_id(b),
{
    assert(spec_canon_deposit(a.deposit) == spec_canon_deposit(b.deposit));
    assert(spec_canon_input(a) == spec_canon_input(b));
}

} // verus!
