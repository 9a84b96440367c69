use vstd::prelude::*;

verus! {

/// Why a claim evaluation was rejected.
#[derive(Clone, Copy, Debug, PartialEq, Eq)]
pub enum ClaimError {
    /// The account has already been paid once.
    AlreadyClaimed,
    /// The clock is still before the campaign window opens.
    NotStarted,
    /// The clock is past the campaign window's end.
    Expired,
    /// The funded pool cannot support one more claim.
    CapacityExhausted,
    /// The non-fungible deposit variant has no claim support.
    Unsupported,
}

/// Why a redeem evaluation was rejected.
#[derive(Clone, Copy, Debug, PartialEq, Eq)]
pub enum RedeemError {
    /// Only the campaign owner may redeem.
    Unauthorized,
    /// The non-fungible deposit variant has no redeem support.
    Unsupported,
}

/// A fungible escrow: `amount` is what has actually landed, `total_amount`
/// the declared funding target.
pub struct FT {
    pub contract_id: String,
    pub total_amount: u128,
    pub amount: u128,
}

/// A non-fungible escrow. Declared for completeness; every mutating
/// operation on this variant reports `Unsupported`.
pub struct NFT {
    pub contract_id: String,
    pub token_ids: Vec<(String, Option<u64>)>,
    pub total_amount: u128,
}

pub enum Deposit {
    FT(FT),
    NFT(NFT),
}

/// Deposit specification at creation: asset account and declared target.
pub enum DepositInput {
    FT((String, u128)),
    NFT((String, u128)),
}

/// Transient creation record for one campaign.
pub struct CampaignInput {
    pub guild_id: String,
    pub role_ids: Vec<String>,
    pub start_time: u64,
    pub end_time: u64,
    pub deposit: DepositInput,
    pub claim_amount: u128,
}

/// A decided-but-not-yet-executed transfer: which asset contract moves
/// `amount` to `receiver_id`.
#[derive(Debug, PartialEq, Eq)]
pub struct TransferIntent {
    pub contract_id: String,
    pub receiver_id: String,
    pub amount: u128,
}

/// Read-only projection of one campaign.
pub struct CampaignInfo {
    pub hash: String,
    pub owner_id: String,
    pub guild_id: String,
    pub role_ids: Vec<String>,
    pub deposit: Deposit,
    pub start_time: u64,
    pub end_time: u64,
    pub left_amount: u128,
    pub total_amount: u128,
    pub claim_amount: u128,
    pub claimed_count: u32,
}

/// One funded, time-bounded reward pool with a fixed per-claim payout.
pub struct Campaign {
    pub hash: String,
    pub owner_id: String,
    pub guild_id: String,
    pub role_ids: Vec<String>,
    pub start_time: u64,
    pub end_time: u64,
    pub deposit: Deposit,
    pub claim_amount: u128,
    pub claimed_accounts: Vec<String>,
}

/// Field-by-field view equality of two deposits.
pub open spec fn spec_deposit_view_eq(a: Deposit, b: Deposit) -> bool {
    match (a, b) {
        (Deposit::FT(x), Deposit::FT(y)) => {
            &&& x.contract_id@ == y.contract_id@
            &&& x.total_amount == y.total_amount
            &&& x.amount == y.amount
        },
        (Deposit::NFT(x), Deposit::NFT(y)) => {
            &&& x.contract_id@ == y.contract_id@
            &&& x.total_amount == y.total_amount
            &&& x.token_ids@ == y.token_ids@
        },
        _ => false,
    }
}

/// The fields of a campaign that no operation after creation may change,
/// the deposit aside.
pub open spec fn spec_meta_eq(a: Campaign, b: Campaign) -> bool {
    &&& a.hash == b.hash
    &&& a.owner_id == b.owner_id
    &&& a.guild_id == b.guild_id
    &&& a.role_ids == b.role_ids
    &&& a.start_time == b.start_time
    &&& a.end_time == b.end_time
    &&& a.claim_amount == b.claim_amount
}

/// The fields of a campaign that no operation after creation may change.
pub open spec fn spec_core_eq(a: Campaign, b: Campaign) -> bool {
    spec_meta_eq(a, b) && a.deposit == b.deposit
}

/// `b` is `a` with its pool zeroed: the fungible balance dropped to zero,
/// or the held units dropped; everything else untouched.
pub open spec fn spec_pool_zeroed(a: Campaign, b: Campaign) -> bool {
    &&& spec_meta_eq(a, b)
    &&& b.claimed_accounts == a.claimed_accounts
    &&& match a.deposit {
        Deposit::FT(v) => b.deposit == (Deposit::FT(FT {
            contract_id: v.contract_id,
            total_amount: v.total_amount,
            amount: 0,
        })),
        Deposit::NFT(v) => b.deposit matches Deposit::NFT(d) && d.contract_id == v.contract_id
            && d.total_amount == v.total_amount && d.token_ids@.len() == 0,
    }
}

/// `b` is `a` with `amount` more landed fungible funding; everything else
/// untouched.
pub open spec fn spec_funded(a: Campaign, b: Campaign, amount: u128) -> bool {
    &&& spec_meta_eq(a, b)
    &&& b.claimed_accounts == a.claimed_accounts
    &&& a.deposit matches Deposit::FT(v) && b.deposit == (Deposit::FT(FT {
        contract_id: v.contract_id,
        total_amount: v.total_amount,
        amount: (v.amount + amount) as u128,
    }))
}

/// `b` is `a` after a confirmed claim by `user`: an idempotent insert into
/// the claimed set, everything else untouched.
pub open spec fn spec_confirmed_insert(a: Campaign, b: Campaign, user: String) -> bool {
    &&& spec_core_eq(a, b)
    &&& if a.spec_claimed(user@) {
        b.claimed_accounts@ == a.claimed_accounts@
    } else {
        b.claimed_accounts@ == a.claimed_accounts@.push(user)
    }
}

/// `c` is what creation builds from `input` under identifier `id` and owner
/// `owner`, before any funding has landed.
pub open spec fn spec_matches_new(c: Campaign, input: CampaignInput, id: Seq<char>, owner: Seq<char>) -> bool {
    &&& c.hash@ == id
    &&& c.owner_id@ == owner
    &&& c.guild_id@ == input.guild_id@
    &&& c.role_ids.deep_view() == input.role_ids.deep_view()
    &&& c.start_time == input.start_time
    &&& c.end_time == input.end_time
    &&& c.claim_amount == input.claim_amount
    &&& c.claimed_accounts@.len() == 0
    &&& match (input.deposit, c.deposit) {
        (DepositInput::FT(v), Deposit::FT(d)) => {
            &&& d.contract_id@ == v.0@
            &&& d.total_amount == v.1
            &&& d.amount == 0
        },
        (DepositInput::NFT(v), Deposit::NFT(d)) => {
            &&& d.contract_id@ == v.0@
            &&& d.total_amount == v.1
            &&& d.token_ids@.len() == 0
        },
        _ => false,
    }
}

/// True when some entry of `list` has the view `user`.
pub open spec fn spec_contains_account(list: Seq<String>, user: Seq<char>) -> bool {
    exists|i: int| 0 <= i < list.len() && list[i]@ == user
}

/// Membership test on a list of account identifiers, by text.
fn contains_account(list: &Vec<String>, user: &String) -> (r: bool)
    ensures
        r == spec_contains_account(list@, user@),
{
    let n: usize = list.len();
    for i in 0..n
        invariant
            n == list@.len(),
            forall|j: int| 0 <= j < i ==> list@[j]@ != user@,
    {
        if list[i] == *user {
            assert(list@[i as int]@ == user@);
            return true;
        }
    }
    false
}

impl Campaign {
    /// The account has successfully claimed (membership in the paid set).
    pub open spec fn spec_claimed(self, user: Seq<char>) -> bool {
        spec_contains_account(self.claimed_accounts@, user)
    }

    /// The claimed set never lists one account twice.
    pub open spec fn wf(self) -> bool {
        forall|i: int, j: int|
            0 <= i < j < self.claimed_accounts@.len()
                ==> self.claimed_accounts@[i]@ != self.claimed_accounts@[j]@
    }

    /// How many claims the landed funding can support at the claim unit.
    pub open spec fn spec_capacity(self) -> int
        recommends
            self.deposit is FT,
            self.claim_amount > 0,
    {
        match self.deposit {
            Deposit::FT(v) => v.amount as int / self.claim_amount as int,
            Deposit::NFT(_) => 0,
        }
    }

    /// What is still in the pool: landed funding (fungible) or held units.
    pub open spec fn spec_left_amount(self) -> u128 {
        match self.deposit {
            Deposit::FT(v) => v.amount,
            Deposit::NFT(v) => v.token_ids@.len() as u128,
        }
    }

    /// The declared funding target.
    pub open spec fn spec_total_amount(self) -> u128 {
        match self.deposit {
            Deposit::FT(v) => v.total_amount,
            Deposit::NFT(v) => v.total_amount,
        }
    }

    /// The first eligibility check a claim by `user` at time `now` fails,
    /// or `None` when the claim is accepted. Checked in order: membership,
    /// window start (inclusive), window end (inclusive), capacity.
    pub open spec fn spec_claim_check(self, user: Seq<char>, now: u64) -> Option<ClaimError> {
        if self.spec_claimed(user) {
            Some(ClaimError::AlreadyClaimed)
        } else if now < self.start_time {
            Some(ClaimError::NotStarted)
        } else if now > self.end_time {
            Some(ClaimError::Expired)
        } else {
            match self.deposit {
                Deposit::FT(v) => if v.amount as int / self.claim_amount as int
                    <= self.claimed_accounts@.len() as int {
                    Some(ClaimError::CapacityExhausted)
                } else {
                    None
                },
                Deposit::NFT(_) => Some(ClaimError::Unsupported),
            }
        }
    }

    /// What a redeem by `caller` is owed: the landed funding minus what the
    /// confirmed claims have paid out, and zero once the pool cannot cover
    /// them (so a second redeem transfers zero).
    pub open spec fn spec_residual(self) -> int
        recommends
            self.deposit is FT,
    {
        let funded = match self.deposit {
            Deposit::FT(v) => v.amount as int,
            Deposit::NFT(_) => 0,
        };
        let paid = self.claimed_accounts@.len() * self.claim_amount as int;
        if paid <= funded {
            funded - paid
        } else {
            0
        }
    }

    /// The first check a redeem by `caller` fails, or `None` when accepted.
    pub open spec fn spec_redeem_check(self, caller: Seq<char>) -> Option<RedeemError> {
        if caller != self.owner_id@ {
            Some(RedeemError::Unauthorized)
        } else if self.deposit is NFT {
            Some(RedeemError::Unsupported)
        } else {
            None
        }
    }

    /// Build a campaign from its creation record. The fungible pool starts
    /// empty: funding lands only through inbound transfer notifications.
    pub fn new(campaign: CampaignInput, hash: String, owner_id: String) -> (r: Self)
        ensures
            r.hash == hash,
            r.owner_id == owner_id,
            r.guild_id == campaign.guild_id,
            r.role_ids == campaign.role_ids,
            r.start_time == campaign.start_time,
            r.end_time == campaign.end_time,
            r.claim_amount == campaign.claim_amount,
            r.claimed_accounts@ == Seq::<String>::empty(),
            campaign.deposit matches DepositInput::FT(v)
                ==> r.deposit == (Deposit::FT(FT {
                    contract_id: v.0,
                    total_amount: v.1,
                    amount: 0,
                })),
            campaign.deposit matches DepositInput::NFT(v)
                ==> r.deposit matches Deposit::NFT(d)
                    && d.contract_id == v.0
                    && d.total_amount == v.1
                    && d.token_ids@ == Seq::<(String, Option<u64>)>::empty(),
            r.wf(),
    {
        let deposit = match campaign.deposit {
            DepositInput::FT(v) => Deposit::FT(FT {
                contract_id: v.0,
                amount: 0,
                total_amount: v.1,
            }),
            DepositInput::NFT(v) => Deposit::NFT(NFT {
                contract_id: v.0,
                token_ids: Vec::new(),
                total_amount: v.1,
            }),
        };
        Campaign {
            hash,
            owner_id,
            guild_id: campaign.guild_id,
            role_ids: campaign.role_ids,
            start_time: campaign.start_time,
            end_time: campaign.end_time,
            deposit,
            claim_amount: campaign.claim_amount,
            claimed_accounts: Vec::new(),
        }
    }

    /// Evaluate a claim by `user_id` at time `now`, paying to `sender_id`.
    /// Nothing is mutated: the claimed set grows only when the settlement
    /// callback confirms the transfer (`on_claim`).
    ///
    /// The result is pinned for every input: an already-claimed account
    /// always gets `AlreadyClaimed`, whatever the window or capacity; the
    /// window is inclusive at both ends; the fungible pool accepts while
    /// the claimed count is below `amount / claim_amount`.
    pub fn claim(&self, user_id: &String, sender_id: &String, now: u64) -> (r: Result<TransferIntent, ClaimError>)
        requires
            self.deposit is FT ==> self.claim_amount > 0,
        ensures
            match r {
                Err(e) => self.spec_claim_check(user_id@, now) == Some(e),
                Ok(intent) => {
                    &&& self.spec_claim_check(user_id@, now) is None
                    &&& self.deposit matches Deposit::FT(v)
                        && intent.contract_id == v.contract_id
                        && intent.receiver_id == *sender_id
                        && intent.amount == self.claim_amount
                },
            },
    {
        if contains_account(&self.claimed_accounts, user_id) {
            return Err(ClaimError::AlreadyClaimed);
        }
        if now < self.start_time {
            return Err(ClaimError::NotStarted);
        }
        if now > self.end_time {
            return Err(ClaimError::Expired);
        }
        match &self.deposit {
            Deposit::FT(v) => {
                if v.amount / self.claim_amount <= self.claimed_accounts.len() as u128 {
                    Err(ClaimError::CapacityExhausted)
                } else {
                    Ok(TransferIntent {
                        contract_id: v.contract_id.clone(),
                        receiver_id: sender_id.clone(),
                        amount: self.claim_amount,
                    })
                }
            },
            Deposit::NFT(_) => Err(ClaimError::Unsupported),
        }
    }

    /// Confirm a settled claim: insert `user_id` into the claimed set.
    /// Idempotent; to be invoked only after the transfer is confirmed.
    pub fn on_claim(&mut self, user_id: String)
        requires
            old(self).wf(),
        ensures
            final(self).wf(),
            spec_confirmed_insert(*old(self), *final(self), user_id),
    {
        if !contains_account(&self.claimed_accounts, &user_id) {
            self.claimed_accounts.push(user_id);
            assert forall|i: int, j: int|
                0 <= i < j < self.claimed_accounts@.len()
                implies self.claimed_accounts@[i]@ != self.claimed_accounts@[j]@ by {
                if j == self.claimed_accounts@.len() - 1 {
                    assert(!spec_contains_account(old(self).claimed_accounts@,
                        self.claimed_accounts@[j]@));
                }
            }
        }
    }

    /// Evaluate a redeem by `caller`: only the owner, and only the fungible
    /// variant; the intent carries the residual balance back to the owner.
    pub fn redeem(&self, caller: &String) -> (r: Result<TransferIntent, RedeemError>)
        ensures
            match r {
                Err(e) => self.spec_redeem_check(caller@) == Some(e),
                Ok(intent) => {
                    &&& self.spec_redeem_check(caller@) is None
                    &&& self.deposit matches Deposit::FT(v) && intent.contract_id == v.contract_id
                    &&& intent.receiver_id == self.owner_id
                    &&& intent.amount == self.spec_residual()
                },
            },
    {
        if !(*caller == self.owner_id) {
            return Err(RedeemError::Unauthorized);
        }
        match &self.deposit {
            Deposit::FT(v) => {
                let count: u128 = self.claimed_accounts.len() as u128;
                let amount: u128 = match count.checked_mul(self.claim_amount) {
                    Some(paid) => if paid <= v.amount {
                        v.amount - paid
                    } else {
                        0
                    },
                    None => 0,
                };
                Ok(TransferIntent {
                    contract_id: v.contract_id.clone(),
                    receiver_id: self.owner_id.clone(),
                    amount,
                })
            },
            Deposit::NFT(_) => Err(RedeemError::Unsupported),
        }
    }

    /// Confirm a settled redeem: zero the fungible pool (or drop the held
    /// units), closing the pool to further redemption. Idempotent.
    pub fn confirm_redeem(&mut self)
        ensures
            spec_pool_zeroed(*old(self), *final(self)),
            final(self).wf() == old(self).wf(),
    {
        let new_deposit = match &self.deposit {
            Deposit::FT(v) => Deposit::FT(FT {
                contract_id: clone_string(&v.contract_id),
                total_amount: v.total_amount,
                amount: 0,
            }),
            Deposit::NFT(v) => Deposit::NFT(NFT {
                contract_id: clone_string(&v.contract_id),
                token_ids: Vec::new(),
                total_amount: v.total_amount,
            }),
        };
        self.deposit = new_deposit;
    }

    /// Apply an inbound funding notification: the landed amount grows.
    /// Funding beyond the declared target is accepted as-is.
    pub fn on_deposit(&mut self, amount: u128)
        requires
            old(self).deposit is FT,
            old(self).deposit matches Deposit::FT(v) ==> v.amount + amount <= u128::MAX,
        ensures
            spec_funded(*old(self), *final(self), amount),
            final(self).wf() == old(self).wf(),
    {
        let new_deposit = match &self.deposit {
            Deposit::FT(v) => Deposit::FT(FT {
                contract_id: clone_string(&v.contract_id),
                total_amount: v.total_amount,
                amount: v.amount + amount,
            }),
            Deposit::NFT(_) => {
                return;
            },
        };
        self.deposit = new_deposit;
    }

    /// Mutable access to the deposit: what the caller leaves in the
    /// reference is what the campaign ends up holding; nothing else moves.
    pub fn get_mut_deposit(&mut self) -> (r: &mut Deposit)
        ensures
            *r == old(self).deposit,
            final(self).deposit == *final(r),
            final(self).hash == old(self).hash,
            final(self).owner_id == old(self).owner_id,
            final(self).guild_id == old(self).guild_id,
            final(self).role_ids == old(self).role_ids,
            final(self).start_time == old(self).start_time,
            final(self).end_time == old(self).end_time,
            final(self).claim_amount == old(self).claim_amount,
            final(self).claimed_accounts == old(self).claimed_accounts,
    {
        &mut self.deposit
    }

    /// The pool balance still held: landed fungible funding, or the number
    /// of held non-fungible units.
    pub fn get_left_amount(&self) -> (r: u128)
        ensures
            r == self.spec_left_amount(),
    {
        match &self.deposit {
            Deposit::FT(v) => v.amount,
            Deposit::NFT(v) => v.token_ids.len() as u128,
        }
    }

    /// The declared funding target.
    pub fn get_total_amount(&self) -> (r: u128)
        ensures
            r == self.spec_total_amount(),
    {
        match &self.deposit {
            Deposit::FT(v) => v.total_amount,
            Deposit::NFT(v) => v.total_amount,
        }
    }

    /// Snapshot projection for display.
    pub fn get_campaign_info(&self) -> (r: CampaignInfo)
        ensures
            spec_matches_info(r, *self),
    {
        let claimed_count: u32 = #[verifier::truncate] (self.claimed_accounts.len() as u32);
        CampaignInfo {
            hash: clone_string(&self.hash),
            owner_id: clone_string(&self.owner_id),
            guild_id: clone_string(&self.guild_id),
            role_ids: clone_strings(&self.role_ids),
            deposit: clone_deposit(&self.deposit),
            start_time: self.start_time,
            end_time: self.end_time,
            left_amount: self.get_left_amount(),
            total_amount: self.get_total_amount(),
            claim_amount: self.claim_amount,
            claimed_count,
        }
    }

    /// Whether `user_id` has successfully claimed.
    pub fn check_claimed(&self, user_id: String) -> (r: bool)
        ensures
            r == self.spec_claimed(user_id@),
    {
        contains_account(&self.claimed_accounts, &user_id)
    }
}

/// What the display projection promises about the campaign it was taken of.
pub open spec fn spec_matches_info(info: CampaignInfo, c: Campaign) -> bool {
    &&& info.hash@ == c.hash@
    &&& info.owner_id@ == c.owner_id@
    &&& info.guild_id@ == c.guild_id@
    &&& info.role_ids.deep_view() == c.role_ids.deep_view()
    &&& spec_deposit_view_eq(info.deposit, c.deposit)
    &&& info.start_time == c.start_time
    &&& info.end_time == c.end_time
    &&& info.left_amount == c.spec_left_amount()
    &&& info.total_amount == c.spec_total_amount()
    &&& info.claim_amount == c.claim_amount
    &&& info.claimed_count == c.claimed_accounts@.len() as u32
}

/// After a claim accepted against state `c0` is settled and confirmed, the
/// claimed count stays within the pool's capacity: a confirmed claim never
/// oversubscribes the pool it was checked against. (A claim confirmed
/// against a state other than the one it was evaluated on — possible while
/// another claim's settlement is still in flight — is outside this
/// statement: the eligibility check is point-in-time.)
pub proof fn lemma_capacity_after_confirmed_claim(
    c0: Campaign,
    c1: Campaign,
    user: String,
    now: u64,
)
    requires
        c0.wf(),
        c0.deposit is FT,
        c0.spec_claim_check(user@, now) is None,
        spec_confirmed_insert(c0, c1, user),
    ensures
        c1.claimed_accounts@.len() <= c1.spec_capacity(),
{
    assert(!c0.spec_claimed(user@));
    assert(c0.claimed_accounts@.len() < c0.spec_capacity());
    assert(c1.claimed_accounts@.len() == c0.claimed_accounts@.len() + 1);
    assert(c1.spec_capacity() == c0.spec_capacity());
}

/// An account already in the claimed set is always turned away with
/// `AlreadyClaimed`, whatever the clock or the pool state.
pub proof fn lemma_claimed_always_rejected(c: Campaign, user: String, now: u64)
    requires
        c.spec_claimed(user@),
    ensures
        c.spec_claim_check(user@, now) == Some(ClaimError::AlreadyClaimed),
{
}

/// The eligibility window is inclusive at both ends: before `start_time` a
/// claim is `NotStarted`, past `end_time` it is `Expired`, and at either
/// boundary neither window error occurs.
pub proof fn lemma_window_boundaries(c: Campaign, user: String, now: u64)
    requires
        !c.spec_claimed(user@),
    ensures
        now < c.start_time ==> c.spec_claim_check(user@, now) == Some(ClaimError::NotStarted),
        now > c.end_time && now >= c.start_time ==> c.spec_claim_check(user@, now) == Some(
            ClaimError::Expired,
        ),
        c.start_time <= now <= c.end_time ==> c.spec_claim_check(user@, now) != Some(
            ClaimError::NotStarted,
        ) && c.spec_claim_check(user@, now) != Some(ClaimError::Expired),
{
}

/// Redeem by anyone but the owner is always `Unauthorized`, whatever the
/// pool state.
pub proof fn lemma_redeem_non_owner(c: Campaign, caller: Seq<char>)
    requires
        caller != c.owner_id@,
    ensures
        c.spec_redeem_check(caller) == Some(RedeemError::Unauthorized),
{
}

/// Once a redeem is confirmed the pool is zeroed, so a second redeem is
/// owed nothing: its residual is zero.
pub proof fn lemma_second_redeem_zero(c0: Campaign, c1: Campaign)
    requires
        c0.deposit is FT,
        spec_pool_zeroed(c0, c1),
    ensures
        c1.spec_residual() == 0,
{
    vstd::arithmetic::mul::lemma_mul_nonnegative(
        c1.claimed_accounts@.len() as int,
        c1.claim_amount as int,
    );
}

/// Clone of a string, equal to its source.
pub(crate) fn clone_string(s: &String) -> (r: String)
    ensures
        r == *s,
{
    s.clone()
}

/// Element-wise clone of a string list.
pub(crate) fn clone_strings(v: &Vec<String>) -> (r: Vec<String>)
    ensures
        r@ == v@,
{
    let n: usize = v.len();
    let mut out: Vec<String> = Vec::new();
    for i in 0..n
        invariant
            n == v@.len(),
            out@ == v@.take(i as int),
    {
        out.push(v[i].clone());
        assert(out@ =~= v@.take(i as int + 1));
    }
    assert(out@ =~= v@);
    out
}

/// Element-wise clone of a held-units list.
fn clone_token_ids(v: &Vec<(String, Option<u64>)>) -> (r: Vec<(String, Option<u64>)>)
    ensures
        r@ == v@,
{
    let n: usize = v.len();
    let mut out: Vec<(String, Option<u64>)> = Vec::new();
    for i in 0..n
        invariant
            n == v@.len(),
            out@ == v@.take(i as int),
    {
        let entry = (v[i].0.clone(), v[i].1);
        assert(entry == v@[i as int]);
        out.push(entry);
        assert(out@ =~= v@.take(i as int + 1));
    }
    assert(out@ =~= v@);
    out
}

/// Clone of a deposit, field by field.
pub(crate) fn clone_deposit(d: &Deposit) -> (r: Deposit)
    ensures
        spec_deposit_view_eq(r, *d),
{
    match d {
        Deposit::FT(v) => Deposit::FT(FT {
            contract_id: v.contract_id.clone(),
            total_amount: v.total_amount,
            amount: v.amount,
        }),
        Deposit::NFT(v) => Deposit::NFT(NFT {
            contract_id: v.contract_id.clone(),
            token_ids: clone_token_ids(&v.token_ids),
            total_amount: v.total_amount,
        }),
    }
}

} // verus!
