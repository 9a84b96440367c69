use vstd::prelude::*;

verus! {

use crate::Contract;
use crate::campaign::{Deposit, spec_confirmed_insert, spec_funded, spec_pool_zeroed};
use crate::lemma_campaigns_update;

/// Why a settlement callback applied no state change.
#[derive(Clone, Copy, Debug, PartialEq, Eq)]
pub enum SettleError {
    /// A transfer sub-result reported failure; state must not advance.
    TransferFailed,
    /// No campaign under the identifier the callback carries.
    NotFound,
    /// The non-fungible deposit variant has no support.
    Unsupported,
}

impl Contract {
    /// Settlement callback for a claim: `transfer_ok` says whether every
    /// sub-result of the external transfer succeeded. Only then is the
    /// account marked claimed ("paid implies claimed"); on failure nothing
    /// changes and the claimant may retry later.
    pub fn on_claim(&mut self, hash: String, user_id: String, transfer_ok: bool) -> (r: Result<
        (),
        SettleError,
    >)
        requires
            old(self).wf(),
        ensures
            final(self).wf(),
            final(self).owner_id == old(self).owner_id,
            final(self).public_key == old(self).public_key,
            final(self).campaigns_by_guild == old(self).campaigns_by_guild,
            !transfer_ok ==> r == Err::<(), SettleError>(SettleError::TransferFailed)
                && *final(self) == *old(self),
            transfer_ok && !old(self).spec_has_campaign(hash@) ==> r == Err::<(), SettleError>(
                SettleError::NotFound,
            ) && *final(self) == *old(self),
            transfer_ok && old(self).spec_has_campaign(hash@) ==> {
                &&& r == Ok::<(), SettleError>(())
                &&& spec_confirmed_insert(
                    old(self).spec_campaign(hash@),
                    final(self).spec_campaign(hash@),
                    user_id,
                )
                &&& forall|k: Seq<char>|
                    final(self).spec_has_campaign(k) <==> old(self).spec_has_campaign(k)
                &&& forall|k: Seq<char>|
                    old(self).spec_has_campaign(k) && k != hash@ ==> final(self).spec_campaign(k)
                        == old(self).spec_campaign(k)
            },
    {
        if !transfer_ok {
            return Err(SettleError::TransferFailed);
        }
        let idx = match self.find_campaign(&hash) {
            Some(i) => i,
            None => {
                return Err(SettleError::NotFound);
            },
        };
        let ghost pre = *old(self);
        let (key, mut camp) = self.campaigns.remove(idx);
        camp.on_claim(user_id);
        self.campaigns.insert(idx, (key, camp));
        proof {
            assert(self.campaigns@ =~= pre.campaigns@.update(
                idx as int,
                self.campaigns@[idx as int],
            ));
            lemma_campaigns_update(pre, *self, idx as int);
            assert forall|i2: int|
                0 <= i2 < self.campaigns@.len() implies (#[trigger] self.campaigns@[i2].1).wf() by {
                if i2 != idx as int {
                    assert(self.campaigns@[i2] == pre.campaigns@[i2]);
                    assert(pre.campaigns@[i2].1.wf());
                }
            }
            assert forall|i2: int, k2: int|
                0 <= i2 < self.campaigns_by_guild@.len() && 0 <= k2
                    < self.campaigns_by_guild@[i2].1@.len()
                implies self.spec_has_campaign(
                    (#[trigger] self.campaigns_by_guild@[i2].1@[k2])@,
                ) by {
                assert(pre.spec_has_campaign(pre.campaigns_by_guild@[i2].1@[k2]@));
            }
        }
        Ok(())
    }

    /// Settlement callback for a redeem: when every transfer sub-result
    /// succeeded, zero the pool, closing it to further redemption;
    /// otherwise nothing changes.
    pub fn on_redeem(&mut self, hash: String, transfer_ok: bool) -> (r: Result<(), SettleError>)
        requires
            old(self).wf(),
        ensures
            final(self).wf(),
            final(self).owner_id == old(self).owner_id,
            final(self).public_key == old(self).public_key,
            final(self).campaigns_by_guild == old(self).campaigns_by_guild,
            !transfer_ok ==> r == Err::<(), SettleError>(SettleError::TransferFailed)
                && *final(self) == *old(self),
            transfer_ok && !old(self).spec_has_campaign(hash@) ==> r == Err::<(), SettleError>(
                SettleError::NotFound,
            ) && *final(self) == *old(self),
            transfer_ok && old(self).spec_has_campaign(hash@) ==> {
                &&& r == Ok::<(), SettleError>(())
                &&& spec_pool_zeroed(
                    old(self).spec_campaign(hash@),
                    final(self).spec_campaign(hash@),
                )
                &&& forall|k: Seq<char>|
                    final(self).spec_has_campaign(k) <==> old(self).spec_has_campaign(k)
                &&& forall|k: Seq<char>|
                    old(self).spec_has_campaign(k) && k != hash@ ==> final(self).spec_campaign(k)
                        == old(self).spec_campaign(k)
            },
    {
        if !transfer_ok {
            return Err(SettleError::TransferFailed);
        }
        let idx = match self.find_campaign(&hash) {
            Some(i) => i,
            None => {
                return Err(SettleError::NotFound);
            },
        };
        let ghost pre = *old(self);
        let (key, mut camp) = self.campaigns.remove(idx);
        camp.confirm_redeem();
        self.campaigns.insert(idx, (key, camp));
        proof {
            assert(self.campaigns@ =~= pre.campaigns@.update(
                idx as int,
                self.campaigns@[idx as int],
            ));
            lemma_campaigns_update(pre, *self, idx as int);
            assert forall|i2: int|
                0 <= i2 < self.campaigns@.len() implies (#[trigger] self.campaigns@[i2].1).wf() by {
                if i2 != idx as int {
                    assert(self.campaigns@[i2] == pre.campaigns@[i2]);
                    assert(pre.campaigns@[i2].1.wf());
                }
            }
            assert forall|i2: int, k2: int|
                0 <= i2 < self.campaigns_by_guild@.len() && 0 <= k2
                    < self.campaigns_by_guild@[i2].1@.len()
                implies self.spec_has_campaign(
                    (#[trigger] self.campaigns_by_guild@[i2].1@[k2])@,
                ) by {
                assert(pre.spec_has_campaign(pre.campaigns_by_guild@[i2].1@[k2]@));
            }
        }
        Ok(())
    }

    /// Inbound funding notification from the asset ledger: `msg` carries
    /// the campaign identifier, `amount` what landed. Grows the fungible
    /// pool; the unused remainder returned to the ledger is always zero.
    pub fn ft_on_transfer(&mut self, sender_id: String, amount: u128, msg: String) -> (r: Result<
        u128,
        SettleError,
    >)
        requires
            old(self).wf(),
            old(self).spec_has_campaign(msg@) ==> (old(self).spec_campaign(
                msg@,
            ).deposit matches Deposit::FT(v) ==> v.amount + amount <= u128::MAX),
        ensures
            final(self).wf(),
            final(self).owner_id == old(self).owner_id,
            final(self).public_key == old(self).public_key,
            final(self).campaigns_by_guild == old(self).campaigns_by_guild,
            !old(self).spec_has_campaign(msg@) ==> r == Err::<u128, SettleError>(
                SettleError::NotFound,
            ) && *final(self) == *old(self),
            old(self).spec_has_campaign(msg@) && old(self).spec_campaign(msg@).deposit is NFT ==> r
                == Err::<u128, SettleError>(SettleError::Unsupported)
                && *final(self) == *old(self),
            old(self).spec_has_campaign(msg@) && old(self).spec_campaign(msg@).deposit is FT ==> {
                &&& r == Ok::<u128, SettleError>(0u128)
                &&& spec_funded(
                    old(self).spec_campaign(msg@),
                    final(self).spec_campaign(msg@),
                    amount,
                )
                &&& forall|k: Seq<char>|
                    final(self).spec_has_campaign(k) <==> old(self).spec_has_campaign(k)
                &&& forall|k: Seq<char>|
                    old(self).spec_has_campaign(k) && k != msg@ ==> final(self).spec_campaign(k)
                        == old(self).spec_campaign(k)
            },
    {
        let idx = match self.find_campaign(&msg) {
            Some(i) => i,
            None => {
                return Err(SettleError::NotFound);
            },
        };
        let is_ft = match &self.campaigns[idx].1.deposit {
            Deposit::FT(_) => true,
            Deposit::NFT(_) => false,
        };
        if !is_ft {
            return Err(SettleError::Unsupported);
        }
        let ghost pre = *old(self);
        let (key, mut camp) = self.campaigns.remove(idx);
        camp.on_deposit(amount);
        self.campaigns.insert(idx, (key, camp));
        proof {
            assert(self.campaigns@ =~= pre.campaigns@.update(
                idx as int,
                self.campaigns@[idx as int],
            ));
            lemma_campaigns_update(pre, *self, idx as int);
            assert forall|i2: int|
                0 <= i2 < self.campaigns@.len() implies (#[trigger] self.campaigns@[i2].1).wf() by {
                if i2 != idx as int {
                    assert(self.campaigns@[i2] == pre.campaigns@[i2]);
                    assert(pre.campaigns@[i2].1.wf());
                }
            }
            assert forall|i2: int, k2: int|
                0 <= i2 < self.campaigns_by_guild@.len() && 0 <= k2
                    < self.campaigns_by_guild@[i2].1@.len()
                implies self.spec_has_campaign(
                    (#[trigger] self.campaigns_by_guild@[i2].1@[k2])@,
                ) by {
                assert(pre.spec_has_campaign(pre.campaigns_by_guild@[i2].1@[k2]@));
            }
        }
        Ok(0)
    }
}

} // verus!
