use vstd::prelude::*;

pub mod campaign;
pub mod resolver;
pub mod utils;
pub mod view;

verus! {

use crate::campaign::{
    Campaign, CampaignInput, ClaimError, Deposit, DepositInput, RedeemError, TransferIntent,
    clone_string, spec_matches_new,
};
use crate::utils::{
    VerificationError, base58_decode_of, spec_campaign_id, spec_claim_message, spec_verify,
};

/// Nanoseconds a claim authorization stays fresh after its timestamp.
pub const SIGNATURE_FRESHNESS_NANOS: u64 = 120_000_000_000;

/// A signature timestamp is fresh when it is not in the future and
/// strictly less than the freshness window old.
pub open spec fn spec_sig_fresh(now: u64, timestamp: u64) -> bool {
    timestamp <= now && now - timestamp < SIGNATURE_FRESHNESS_NANOS
}

/// Decide whether a claim authorization timestamp is still fresh at `now`.
pub fn sig_fresh(now: u64, timestamp: u64) -> (r: bool)
    ensures
        r == spec_sig_fresh(now, timestamp),
{
    timestamp <= now && now - timestamp < SIGNATURE_FRESHNESS_NANOS
}

/// Why campaign creation was rejected.
#[derive(Clone, Copy, Debug, PartialEq, Eq)]
pub enum CreateError {
    /// The declared deposit target is smaller than one claim unit.
    InsufficientFunding,
    /// The non-fungible deposit variant has no creation support.
    Unsupported,
}

/// Why a claim request was rejected before any transfer was issued.
#[derive(Clone, Copy, Debug, PartialEq, Eq)]
pub enum ClaimTxnError {
    /// The authorization timestamp is outside the freshness window.
    SignatureExpired,
    /// The authorization did not verify.
    Verification(VerificationError),
    /// No campaign under the given identifier.
    NotFound,
    /// The campaign rejected the claim.
    Eligibility(ClaimError),
}

/// Why a redeem request was rejected before any transfer was issued.
#[derive(Clone, Copy, Debug, PartialEq, Eq)]
pub enum RedeemTxnError {
    /// No campaign under the given identifier.
    NotFound,
    /// The campaign rejected the redeem.
    Redeem(RedeemError),
}

/// The registry of campaigns and the coordinator of their settlement:
/// campaigns keyed by their content-derived identifier, plus an index from
/// grouping key to identifiers, in insertion order.
pub struct Contract {
    pub owner_id: String,
    pub public_key: String,
    pub campaigns: Vec<(String, Campaign)>,
    pub campaigns_by_guild: Vec<(String, Vec<String>)>,
}

impl Contract {
    /// Some campaign is stored under identifier `id`.
    pub open spec fn spec_has_campaign(self, id: Seq<char>) -> bool {
        exists|i: int| 0 <= i < self.campaigns@.len() && self.campaigns@[i].0@ == id
    }

    /// The index of the campaign stored under `id`.
    pub open spec fn spec_index_of(self, id: Seq<char>) -> int {
        choose|i: int| 0 <= i < self.campaigns@.len() && self.campaigns@[i].0@ == id
    }

    /// The campaign stored under `id`.
    pub open spec fn spec_campaign(self, id: Seq<char>) -> Campaign {
        self.campaigns@[self.spec_index_of(id)].1
    }

    /// No identifier keys two entries.
    pub open spec fn campaigns_unique(self) -> bool {
        forall|i: int, j: int|
            0 <= i < j < self.campaigns@.len()
                ==> self.campaigns@[i].0@ != self.campaigns@[j].0@
    }

    /// Some index entry exists for grouping key `g`.
    pub open spec fn spec_has_guild(self, g: Seq<char>) -> bool {
        exists|i: int| 0 <= i < self.campaigns_by_guild@.len() && self.campaigns_by_guild@[i].0@ == g
    }

    /// The index of the entry for grouping key `g`.
    pub open spec fn spec_guild_index(self, g: Seq<char>) -> int {
        choose|i: int|
            0 <= i < self.campaigns_by_guild@.len() && self.campaigns_by_guild@[i].0@ == g
    }

    /// The identifiers recorded for grouping key `g`, oldest first.
    pub open spec fn spec_guild_list(self, g: Seq<char>) -> Seq<String> {
        if self.spec_has_guild(g) {
            self.campaigns_by_guild@[self.spec_guild_index(g)].1@
        } else {
            Seq::empty()
        }
    }

    /// No grouping key keys two index entries.
    pub open spec fn guilds_unique(self) -> bool {
        forall|i: int, j: int|
            0 <= i < j < self.campaigns_by_guild@.len()
                ==> self.campaigns_by_guild@[i].0@ != self.campaigns_by_guild@[j].0@
    }

    /// Every identifier in the grouping index is a stored campaign.
    pub open spec fn guild_refs_ok(self) -> bool {
        forall|i: int, k: int|
            0 <= i < self.campaigns_by_guild@.len() && 0 <= k
                < self.campaigns_by_guild@[i].1@.len()
                ==> self.spec_has_campaign((#[trigger] self.campaigns_by_guild@[i].1@[k])@)
    }

    /// Every stored campaign is well formed.
    pub open spec fn campaigns_wf(self) -> bool {
        forall|i: int|
            0 <= i < self.campaigns@.len() ==> (#[trigger] self.campaigns@[i].1).wf()
    }

    /// The registry invariant.
    pub open spec fn wf(self) -> bool {
        &&& self.campaigns_unique()
        &&& self.guilds_unique()
        &&& self.guild_refs_ok()
        &&& self.campaigns_wf()
    }

    /// An empty registry under `owner_id`, trusting the given signer key.
    pub fn new(owner_id: String, public_key: String) -> (r: Self)
        ensures
            r.owner_id == owner_id,
            r.public_key == public_key,
            r.campaigns@ == Seq::<(String, Campaign)>::empty(),
            r.campaigns_by_guild@ == Seq::<(String, Vec<String>)>::empty(),
            r.wf(),
    {
        Contract {
            owner_id,
            public_key,
            campaigns: Vec::new(),
            campaigns_by_guild: Vec::new(),
        }
    }

    /// Linear search of the campaign store by identifier text.
    pub(crate) fn find_campaign(&self, id: &String) -> (r: Option<usize>)
        requires
            self.campaigns_unique(),
        ensures
            match r {
                Some(i) => {
                    &&& i < self.campaigns@.len()
                    &&& self.campaigns@[i as int].0@ == id@
                    &&& self.spec_has_campaign(id@)
                    &&& self.spec_index_of(id@) == i as int
                },
                None => !self.spec_has_campaign(id@),
            },
    {
        let n: usize = self.campaigns.len();
        for i in 0..n
            invariant
                self.campaigns_unique(),
                n == self.campaigns@.len(),
                forall|j: int| 0 <= j < i ==> self.campaigns@[j].0@ != id@,
        {
            if self.campaigns[i].0 == *id {
                proof {
                    lemma_key_index(*self, i as int);
                }
                return Some(i);
            }
        }
        None
    }

    /// Linear search of the grouping index by key text.
    pub(crate) fn find_guild(&self, g: &String) -> (r: Option<usize>)
        requires
            self.guilds_unique(),
        ensures
            match r {
                Some(i) => {
                    &&& i < self.campaigns_by_guild@.len()
                    &&& self.campaigns_by_guild@[i as int].0@ == g@
                    &&& self.spec_has_guild(g@)
                    &&& self.spec_guild_index(g@) == i as int
                },
                None => !self.spec_has_guild(g@),
            },
    {
        let n: usize = self.campaigns_by_guild.len();
        for i in 0..n
            invariant
                self.guilds_unique(),
                n == self.campaigns_by_guild@.len(),
                forall|j: int| 0 <= j < i ==> self.campaigns_by_guild@[j].0@ != g@,
        {
            if self.campaigns_by_guild[i].0 == *g {
                proof {
                    lemma_guild_index(*self, i as int);
                }
                return Some(i);
            }
        }
        None
    }

    /// Store `c` under `key`: last write wins on an existing identifier.
    fn upsert_campaign(&mut self, key: String, c: Campaign)
        requires
            old(self).wf(),
            c.wf(),
        ensures
            final(self).wf(),
            final(self).owner_id == old(self).owner_id,
            final(self).public_key == old(self).public_key,
            final(self).campaigns_by_guild == old(self).campaigns_by_guild,
            final(self).spec_has_campaign(key@),
            final(self).spec_campaign(key@) == c,
            forall|k: Seq<char>|
                final(self).spec_has_campaign(k) <==> old(self).spec_has_campaign(k) || k
                    == key@,
            forall|k: Seq<char>|
                old(self).spec_has_campaign(k) && k != key@
                    ==> final(self).spec_campaign(k) == old(self).spec_campaign(k),
    {
        let ghost pre = *old(self);
        match self.find_campaign(&key) {
            Some(i) => {
                let ghost kv = key@;
                self.campaigns[i] = (key, c);
                proof {
                    assert(self.campaigns@[i as int].0@ == kv);
                    lemma_campaigns_update(pre, *self, i as int);
                    assert forall|i2: int, k2: int|
                        0 <= i2 < self.campaigns_by_guild@.len() && 0 <= k2
                            < self.campaigns_by_guild@[i2].1@.len()
                        implies self.spec_has_campaign(
                            (#[trigger] self.campaigns_by_guild@[i2].1@[k2])@) by {
                        assert(pre.spec_has_campaign(pre.campaigns_by_guild@[i2].1@[k2]@));
                    }
                }
            },
            None => {
                self.campaigns.push((key, c));
                proof {
                    lemma_campaigns_push(pre, *self);
                    assert forall|i2: int, k2: int|
                        0 <= i2 < self.campaigns_by_guild@.len() && 0 <= k2
                            < self.campaigns_by_guild@[i2].1@.len()
                        implies self.spec_has_campaign(
                            (#[trigger] self.campaigns_by_guild@[i2].1@[k2])@) by {
                        assert(pre.spec_has_campaign(pre.campaigns_by_guild@[i2].1@[k2]@));
                    }
                }
            },
        }
    }

    /// Record `id` under grouping key `guild`, creating the entry on first
    /// use. Duplicates are recorded as-is.
    fn push_guild(&mut self, guild: String, id: String)
        requires
            old(self).wf(),
            old(self).spec_has_campaign(id@),
        ensures
            final(self).wf(),
            final(self).owner_id == old(self).owner_id,
            final(self).public_key == old(self).public_key,
            final(self).campaigns == old(self).campaigns,
            final(self).spec_guild_list(guild@) == old(self).spec_guild_list(guild@).push(id),
            forall|g: Seq<char>|
                g != guild@ ==> final(self).spec_guild_list(g) == old(self).spec_guild_list(g),
            forall|g: Seq<char>|
                final(self).spec_has_guild(g) <==> old(self).spec_has_guild(g) || g == guild@,
    {
        let ghost pre = *old(self);
        match self.find_guild(&guild) {
            Some(i) => {
                let (g, mut list) = self.campaigns_by_guild.remove(i);
                list.push(id);
                self.campaigns_by_guild.insert(i, (g, list));
                proof {
                    assert(self.campaigns_by_guild@ =~= pre.campaigns_by_guild@.update(
                        i as int, self.campaigns_by_guild@[i as int]));
                    lemma_guilds_update(pre, *self, i as int);
                    assert forall|i2: int, k2: int|
                        0 <= i2 < self.campaigns_by_guild@.len() && 0 <= k2
                            < self.campaigns_by_guild@[i2].1@.len()
                        implies self.spec_has_campaign(
                            (#[trigger] self.campaigns_by_guild@[i2].1@[k2])@) by {
                        let x = self.campaigns_by_guild@[i2].1@[k2];
                        if i2 == i as int {
                            if k2 < pre.campaigns_by_guild@[i2].1@.len() {
                                assert(x == pre.campaigns_by_guild@[i2].1@[k2]);
                                assert(pre.spec_has_campaign(x@));
                            } else {
                                assert(x == id);
                            }
                        } else {
                            assert(self.campaigns_by_guild@[i2] == pre.campaigns_by_guild@[i2]);
                            assert(pre.spec_has_campaign(x@));
                        }
                        lemma_has_campaign_same_store(pre, *self, x@);
                    }
                }
            },
            None => {
                let mut list: Vec<String> = Vec::new();
                list.push(id);
                self.campaigns_by_guild.push((guild, list));
                proof {
                    lemma_guilds_push(pre, *self);
                    assert forall|i2: int, k2: int|
                        0 <= i2 < self.campaigns_by_guild@.len() && 0 <= k2
                            < self.campaigns_by_guild@[i2].1@.len()
                        implies self.spec_has_campaign(
                            (#[trigger] self.campaigns_by_guild@[i2].1@[k2])@) by {
                        let x = self.campaigns_by_guild@[i2].1@[k2];
                        if i2 == self.campaigns_by_guild@.len() - 1 {
                            assert(x == id);
                        } else {
                            assert(self.campaigns_by_guild@[i2] == pre.campaigns_by_guild@[i2]);
                            assert(pre.spec_has_campaign(x@));
                        }
                        lemma_has_campaign_same_store(pre, *self, x@);
                    }
                }
            },
        }
    }

    /// Create a campaign from `campaign`, owned by `sender_id`: reject a
    /// fungible target below one claim unit and the non-fungible variant;
    /// otherwise store the campaign under its content-derived identifier
    /// (last write wins on identical defining fields) and append the
    /// identifier to the grouping index.
    pub fn add_campaign(&mut self, campaign: CampaignInput, sender_id: String) -> (r: Result<
        String,
        CreateError,
    >)
        requires
            old(self).wf(),
        ensures
            final(self).wf(),
            final(self).owner_id == old(self).owner_id,
            final(self).public_key == old(self).public_key,
            campaign.deposit is NFT ==> r == Err::<String, CreateError>(CreateError::Unsupported)
                && *final(self) == *old(self),
            campaign.deposit matches DepositInput::FT(v) && v.1 < campaign.claim_amount ==> r
                == Err::<String, CreateError>(CreateError::InsufficientFunding) && *final(self)
                == *old(self),
            campaign.deposit matches DepositInput::FT(v) && v.1 >= campaign.claim_amount ==> (r
                matches Ok(id) && {
                &&& id@ == spec_campaign_id(campaign)
                &&& final(self).spec_has_campaign(id@)
                &&& spec_matches_new(final(self).spec_campaign(id@), campaign, id@, sender_id@)
                &&& forall|k: Seq<char>|
                    final(self).spec_has_campaign(k) <==> old(self).spec_has_campaign(k) || k
                        == id@
                &&& forall|k: Seq<char>|
                    old(self).spec_has_campaign(k) && k != id@ ==> final(self).spec_campaign(k)
                        == old(self).spec_campaign(k)
                &&& final(self).spec_guild_list(campaign.guild_id@) == old(
                    self,
                ).spec_guild_list(campaign.guild_id@).push(id)
                &&& forall|g: Seq<char>|
                    g != campaign.guild_id@ ==> final(self).spec_guild_list(g) == old(
                        self,
                    ).spec_guild_list(g)
            }),
    {
        match &campaign.deposit {
            DepositInput::FT(v) => {
                if v.1 < campaign.claim_amount {
                    return Err(CreateError::InsufficientFunding);
                }
            },
            DepositInput::NFT(_) => {
                return Err(CreateError::Unsupported);
            },
        }
        let hash = crate::utils::get_hash(&campaign);
        let guild = clone_string(&campaign.guild_id);
        let camp = Campaign::new(campaign, clone_string(&hash), sender_id);
        self.upsert_campaign(clone_string(&hash), camp);
        self.push_guild(guild, clone_string(&hash));
        Ok(hash)
    }

    /// The result a claim request is turned away with, or `None` when it is
    /// accepted: freshness first, then authorization, then campaign lookup,
    /// then eligibility.
    pub open spec fn spec_claim_request_check(
        self,
        hash: Seq<char>,
        user: Seq<char>,
        timestamp: u64,
        sign: Seq<char>,
        now: u64,
    ) -> Option<ClaimTxnError> {
        if !spec_sig_fresh(now, timestamp) {
            Some(ClaimTxnError::SignatureExpired)
        } else {
            match (base58_decode_of(sign), base58_decode_of(self.public_key@)) {
                (Some(s), Some(p)) => match spec_verify(
                    spec_claim_message(hash, user, timestamp),
                    s,
                    p,
                ) {
                    Err(e) => Some(ClaimTxnError::Verification(e)),
                    Ok(_) => if !self.spec_has_campaign(hash) {
                        Some(ClaimTxnError::NotFound)
                    } else {
                        match self.spec_campaign(hash).spec_claim_check(user, now) {
                            Some(e) => Some(ClaimTxnError::Eligibility(e)),
                            None => None,
                        }
                    },
                },
                _ => Some(ClaimTxnError::Verification(VerificationError::Malformed)),
            }
        }
    }

    /// Accept or reject a claim request. Nothing is mutated either way: an
    /// accepted request only returns the transfer intent, and the claimed
    /// set grows when the settlement callback (`on_claim`) confirms the
    /// transfer.
    pub fn claim(
        &mut self,
        hash: String,
        user_id: String,
        timestamp: u64,
        sign: String,
        sender_id: String,
        now: u64,
    ) -> (r: Result<TransferIntent, ClaimTxnError>)
        requires
            old(self).wf(),
            old(self).spec_has_campaign(hash@) && old(self).spec_campaign(hash@).deposit is FT
                ==> old(self).spec_campaign(hash@).claim_amount > 0,
        ensures
            *final(self) == *old(self),
            match r {
                Err(e) => old(self).spec_claim_request_check(
                    hash@,
                    user_id@,
                    timestamp,
                    sign@,
                    now,
                ) == Some(e),
                Ok(intent) => {
                    &&& old(self).spec_claim_request_check(
                        hash@,
                        user_id@,
                        timestamp,
                        sign@,
                        now,
                    ) is None
                    &&& old(self).spec_campaign(hash@).deposit matches Deposit::FT(v)
                        && intent.contract_id == v.contract_id
                    &&& intent.receiver_id == sender_id
                    &&& intent.amount == old(self).spec_campaign(hash@).claim_amount
                },
            },
    {
        if !sig_fresh(now, timestamp) {
            return Err(ClaimTxnError::SignatureExpired);
        }
        let sign_bytes = match crate::utils::b58_decode(&sign) {
            Some(v) => v,
            None => {
                return Err(ClaimTxnError::Verification(VerificationError::Malformed));
            },
        };
        let pk_bytes = match crate::utils::b58_decode(&self.public_key) {
            Some(v) => v,
            None => {
                return Err(ClaimTxnError::Verification(VerificationError::Malformed));
            },
        };
        let message = crate::utils::claim_message(&hash, &user_id, timestamp);
        match crate::utils::verify(message, sign_bytes, pk_bytes) {
            Ok(_) => {},
            Err(e) => {
                return Err(ClaimTxnError::Verification(e));
            },
        }
        let idx = match self.find_campaign(&hash) {
            Some(i) => i,
            None => {
                return Err(ClaimTxnError::NotFound);
            },
        };
        let c = &self.campaigns[idx].1;
        match c.claim(&user_id, &sender_id, now) {
            Ok(intent) => Ok(intent),
            Err(e) => Err(ClaimTxnError::Eligibility(e)),
        }
    }

    /// The result a redeem request is turned away with, or `None`.
    pub open spec fn spec_redeem_request_check(self, hash: Seq<char>, caller: Seq<char>) -> Option<
        RedeemTxnError,
    > {
        if !self.spec_has_campaign(hash) {
            Some(RedeemTxnError::NotFound)
        } else {
            match self.spec_campaign(hash).spec_redeem_check(caller) {
                Some(e) => Some(RedeemTxnError::Redeem(e)),
                None => None,
            }
        }
    }

    /// Accept or reject a redeem request by `caller`. A non-owner is
    /// always turned away with `Unauthorized` and nothing changes; in fact
    /// nothing changes on any path, since the pool is zeroed only when the
    /// settlement callback (`on_redeem`) confirms the transfer.
    pub fn redeem(&mut self, hash: String, caller: String) -> (r: Result<
        TransferIntent,
        RedeemTxnError,
    >)
        requires
            old(self).wf(),
        ensures
            *final(self) == *old(self),
            match r {
                Err(e) => old(self).spec_redeem_request_check(hash@, caller@) == Some(e),
                Ok(intent) => {
                    &&& old(self).spec_redeem_request_check(hash@, caller@) is None
                    &&& old(self).spec_campaign(hash@).deposit matches Deposit::FT(v)
                        && intent.contract_id == v.contract_id
                    &&& intent.receiver_id == old(self).spec_campaign(hash@).owner_id
                    &&& intent.amount == old(self).spec_campaign(hash@).spec_residual()
                },
            },
    {
        let idx = match self.find_campaign(&hash) {
            Some(i) => i,
            None => {
                return Err(RedeemTxnError::NotFound);
            },
        };
        let c = &self.campaigns[idx].1;
        match c.redeem(&caller) {
            Ok(intent) => Ok(intent),
            Err(e) => Err(RedeemTxnError::Redeem(e)),
        }
    }
}

/// Two states with the same campaign store agree on membership.
pub proof fn lemma_has_campaign_same_store(a: Contract, b: Contract, id: Seq<char>)
    requires
        a.campaigns@ == b.campaigns@,
        a.spec_has_campaign(id),
    ensures
        b.spec_has_campaign(id),
{
    let j = a.spec_index_of(id);
    assert(0 <= j < a.campaigns@.len() && a.campaigns@[j].0@ == id);
    assert(b.campaigns@[j].0@ == id);
}

/// A matching key at index `i` is the index `spec_index_of` resolves to.
pub proof fn lemma_key_index(c: Contract, i: int)
    requires
        c.campaigns_unique(),
        0 <= i < c.campaigns@.len(),
    ensures
        c.spec_has_campaign(c.campaigns@[i].0@),
        c.spec_index_of(c.campaigns@[i].0@) == i,
{
    let id = c.campaigns@[i].0@;
    assert(c.spec_has_campaign(id));
    let j = c.spec_index_of(id);
    assert(0 <= j < c.campaigns@.len() && c.campaigns@[j].0@ == id);
    if j < i {
        assert(false);
    } else if i < j {
        assert(false);
    }
}

/// A matching grouping key at index `i` is where `spec_guild_index` points.
pub proof fn lemma_guild_index(c: Contract, i: int)
    requires
        c.guilds_unique(),
        0 <= i < c.campaigns_by_guild@.len(),
    ensures
        c.spec_has_guild(c.campaigns_by_guild@[i].0@),
        c.spec_guild_index(c.campaigns_by_guild@[i].0@) == i,
{
    let g = c.campaigns_by_guild@[i].0@;
    assert(c.spec_has_guild(g));
    let j = c.spec_guild_index(g);
    assert(0 <= j < c.campaigns_by_guild@.len() && c.campaigns_by_guild@[j].0@ == g);
    if j < i {
        assert(false);
    } else if i < j {
        assert(false);
    }
}

/// Replacing the campaign at one index, key text kept, leaves the store's
/// key set alone and every other entry where it was.
pub proof fn lemma_campaigns_update(pre: Contract, post: Contract, i: int)
    requires
        pre.campaigns_unique(),
        0 <= i < pre.campaigns@.len(),
        post.campaigns@.len() == pre.campaigns@.len(),
        forall|j: int|
            0 <= j < pre.campaigns@.len() && j != i ==> post.campaigns@[j] == pre.campaigns@[j],
        post.campaigns@[i].0@ == pre.campaigns@[i].0@,
    ensures
        post.campaigns_unique(),
        forall|k: Seq<char>| post.spec_has_campaign(k) <==> pre.spec_has_campaign(k),
        forall|k: Seq<char>|
            pre.spec_has_campaign(k) && k != pre.campaigns@[i].0@ ==> post.spec_campaign(k)
                == pre.spec_campaign(k),
        post.spec_campaign(pre.campaigns@[i].0@) == post.campaigns@[i].1,
        post.spec_index_of(pre.campaigns@[i].0@) == i,
{
    assert(forall|j: int|
        0 <= j < post.campaigns@.len() ==> post.campaigns@[j].0@ == pre.campaigns@[j].0@);
    assert forall|k: Seq<char>| post.spec_has_campaign(k) <==> pre.spec_has_campaign(k) by {
        if post.spec_has_campaign(k) {
            let j = post.spec_index_of(k);
            assert(pre.campaigns@[j].0@ == k);
            assert(pre.spec_has_campaign(k));
        }
        if pre.spec_has_campaign(k) {
            let j = pre.spec_index_of(k);
            assert(post.campaigns@[j].0@ == k);
            assert(post.spec_has_campaign(k));
        }
    }
    assert forall|k: Seq<char>|
        pre.spec_has_campaign(k) && k != pre.campaigns@[i].0@ implies post.spec_campaign(k)
        == pre.spec_campaign(k) by {
        let j = pre.spec_index_of(k);
        assert(0 <= j < pre.campaigns@.len() && pre.campaigns@[j].0@ == k);
        assert(j != i);
        lemma_key_index(post, j);
        assert(post.spec_index_of(k) == j);
    }
    lemma_key_index(post, i);
}

/// Pushing an entry under a fresh key adds exactly that key, and leaves
/// every stored campaign where it was.
pub proof fn lemma_campaigns_push(pre: Contract, post: Contract)
    requires
        pre.campaigns_unique(),
        post.campaigns@.len() == pre.campaigns@.len() + 1,
        forall|j: int| 0 <= j < pre.campaigns@.len() ==> post.campaigns@[j] == pre.campaigns@[j],
        !pre.spec_has_campaign(post.campaigns@[post.campaigns@.len() - 1].0@),
    ensures
        post.campaigns_unique(),
        forall|k: Seq<char>|
            post.spec_has_campaign(k) <==> pre.spec_has_campaign(k) || k == post.campaigns@[
                post.campaigns@.len() - 1
            ].0@,
        forall|k: Seq<char>|
            pre.spec_has_campaign(k) ==> post.spec_campaign(k) == pre.spec_campaign(k),
        post.spec_index_of(post.campaigns@[post.campaigns@.len() - 1].0@) == post.campaigns@.len()
            - 1,
        post.spec_campaign(post.campaigns@[post.campaigns@.len() - 1].0@) == post.campaigns@[
            post.campaigns@.len() - 1
        ].1,
{
    let n = pre.campaigns@.len() as int;
    let key = post.campaigns@[n].0@;
    assert forall|i2: int, j2: int|
        0 <= i2 < j2 < post.campaigns@.len() implies post.campaigns@[i2].0@
        != post.campaigns@[j2].0@ by {
        if j2 == n {
            assert(!pre.spec_has_campaign(key));
            assert(pre.campaigns@[i2].0@ == post.campaigns@[i2].0@);
            if post.campaigns@[i2].0@ == key {
                assert(pre.spec_has_campaign(key));
            }
        }
    }
    assert forall|k: Seq<char>|
        post.spec_has_campaign(k) <==> pre.spec_has_campaign(k) || k == key by {
        if post.spec_has_campaign(k) {
            let j = post.spec_index_of(k);
            if j < n {
                assert(pre.campaigns@[j].0@ == k);
                assert(pre.spec_has_campaign(k));
            }
        }
        if pre.spec_has_campaign(k) {
            let j = pre.spec_index_of(k);
            assert(post.campaigns@[j].0@ == k);
            assert(post.spec_has_campaign(k));
        }
        if k == key {
            assert(post.campaigns@[n].0@ == k);
            assert(post.spec_has_campaign(k));
        }
    }
    assert forall|k: Seq<char>| pre.spec_has_campaign(k) implies post.spec_campaign(k)
        == pre.spec_campaign(k) by {
        let j = pre.spec_index_of(k);
        assert(0 <= j < pre.campaigns@.len() && pre.campaigns@[j].0@ == k);
        lemma_key_index(post, j);
    }
    lemma_key_index(post, n);
}

/// Replacing the grouping entry at one index, key text kept, leaves every
/// other grouping list where it was.
pub proof fn lemma_guilds_update(pre: Contract, post: Contract, i: int)
    requires
        pre.guilds_unique(),
        0 <= i < pre.campaigns_by_guild@.len(),
        post.campaigns_by_guild@.len() == pre.campaigns_by_guild@.len(),
        forall|j: int|
            0 <= j < pre.campaigns_by_guild@.len() && j != i ==> post.campaigns_by_guild@[j]
                == pre.campaigns_by_guild@[j],
        post.campaigns_by_guild@[i].0@ == pre.campaigns_by_guild@[i].0@,
    ensures
        post.guilds_unique(),
        forall|g: Seq<char>| post.spec_has_guild(g) <==> pre.spec_has_guild(g),
        forall|g: Seq<char>|
            g != pre.campaigns_by_guild@[i].0@ ==> post.spec_guild_list(g) == pre.spec_guild_list(
                g,
            ),
        post.spec_guild_list(pre.campaigns_by_guild@[i].0@) == post.campaigns_by_guild@[i].1@,
        post.spec_guild_index(pre.campaigns_by_guild@[i].0@) == i,
{
    assert(forall|j: int|
        0 <= j < post.campaigns_by_guild@.len() ==> post.campaigns_by_guild@[j].0@
            == pre.campaigns_by_guild@[j].0@);
    assert forall|g: Seq<char>| post.spec_has_guild(g) <==> pre.spec_has_guild(g) by {
        if post.spec_has_guild(g) {
            let j = post.spec_guild_index(g);
            assert(pre.campaigns_by_guild@[j].0@ == g);
            assert(pre.spec_has_guild(g));
        }
        if pre.spec_has_guild(g) {
            let j = pre.spec_guild_index(g);
            assert(post.campaigns_by_guild@[j].0@ == g);
            assert(post.spec_has_guild(g));
        }
    }
    assert forall|g: Seq<char>|
        g != pre.campaigns_by_guild@[i].0@ implies post.spec_guild_list(g) == pre.spec_guild_list(
        g,
    ) by {
        if pre.spec_has_guild(g) {
            let j = pre.spec_guild_index(g);
            assert(0 <= j < pre.campaigns_by_guild@.len() && pre.campaigns_by_guild@[j].0@ == g);
            assert(j != i);
            lemma_guild_index(post, j);
        }
    }
    lemma_guild_index(post, i);
}

/// Pushing a grouping entry under a fresh key adds exactly that key.
pub proof fn lemma_guilds_push(pre: Contract, post: Contract)
    requires
        pre.guilds_unique(),
        post.campaigns_by_guild@.len() == pre.campaigns_by_guild@.len() + 1,
        forall|j: int|
            0 <= j < pre.campaigns_by_guild@.len() ==> post.campaigns_by_guild@[j]
                == pre.campaigns_by_guild@[j],
        !pre.spec_has_guild(
            post.campaigns_by_guild@[post.campaigns_by_guild@.len() - 1].0@,
        ),
    ensures
        post.guilds_unique(),
        forall|g: Seq<char>|
            post.spec_has_guild(g) <==> pre.spec_has_guild(g) || g == post.campaigns_by_guild@[
                post.campaigns_by_guild@.len() - 1
            ].0@,
        forall|g: Seq<char>|
            g != post.campaigns_by_guild@[post.campaigns_by_guild@.len() - 1].0@
                ==> post.spec_guild_list(g) == pre.spec_guild_list(g),
        post.spec_guild_list(post.campaigns_by_guild@[post.campaigns_by_guild@.len() - 1].0@)
            == post.campaigns_by_guild@[post.campaigns_by_guild@.len() - 1].1@,
{
    let n = pre.campaigns_by_guild@.len() as int;
    let key = post.campaigns_by_guild@[n].0@;
    assert forall|i2: int, j2: int|
        0 <= i2 < j2 < post.campaigns_by_guild@.len() implies post.campaigns_by_guild@[i2].0@
        != post.campaigns_by_guild@[j2].0@ by {
        if j2 == n {
            if post.campaigns_by_guild@[i2].0@ == key {
                assert(pre.spec_has_guild(key));
            }
        }
    }
    assert forall|g: Seq<char>|
        post.spec_has_guild(g) <==> pre.spec_has_guild(g) || g == key by {
        if post.spec_has_guild(g) {
            let j = post.spec_guild_index(g);
            if j < n {
                assert(pre.campaigns_by_guild@[j].0@ == g);
                assert(pre.spec_has_guild(g));
            }
        }
        if pre.spec_has_guild(g) {
            let j = pre.spec_guild_index(g);
            assert(post.campaigns_by_guild@[j].0@ == g);
            assert(post.spec_has_guild(g));
        }
        if g == key {
            assert(post.campaigns_by_guild@[n].0@ == g);
            assert(post.spec_has_guild(g));
        }
    }
    assert forall|g: Seq<char>|
        g != key implies post.spec_guild_list(g) == pre.spec_guild_list(g) by {
        if pre.spec_has_guild(g) {
            let j = pre.spec_guild_index(g);
            assert(0 <= j < pre.campaigns_by_guild@.len() && pre.campaigns_by_guild@[j].0@ == g);
            lemma_guild_index(post, j);
        }
    }
    lemma_guild_index(post, n);
}

} // verus!
