use vstd::prelude::*;
use vstd::pervasive::unreached;

verus! {

use crate::Contract;
use crate::campaign::{CampaignInfo, spec_matches_info};

impl Contract {
    /// The display projection of the campaign under `hash`, if any.
    pub fn get_campaign(&self, hash: String) -> (r: Option<CampaignInfo>)
        requires
            self.wf(),
        ensures
            match r {
                Some(info) => self.spec_has_campaign(hash@) && spec_matches_info(
                    info,
                    self.spec_campaign(hash@),
                ),
                None => !self.spec_has_campaign(hash@),
            },
    {
        match self.find_campaign(&hash) {
            Some(i) => Some(self.campaigns[i].1.get_campaign_info()),
            None => None,
        }
    }

    /// The display projections of every campaign recorded under the
    /// grouping key, in insertion order.
    pub fn get_campaigns_by_guild(&self, guild_id: String) -> (r: Vec<CampaignInfo>)
        requires
            self.wf(),
        ensures
            r@.len() == self.spec_guild_list(guild_id@).len(),
            forall|i: int|
                0 <= i < r@.len() ==> spec_matches_info(
                    #[trigger] r@[i],
                    self.spec_campaign(self.spec_guild_list(guild_id@)[i]@),
                ),
    {
        let mut out: Vec<CampaignInfo> = Vec::new();
        let gi = match self.find_guild(&guild_id) {
            Some(i) => i,
            None => {
                return out;
            },
        };
        let n: usize = self.campaigns_by_guild[gi].1.len();
        for k in 0..n
            invariant
                gi < self.campaigns_by_guild@.len(),
                self.wf(),
                self.spec_has_guild(guild_id@),
                self.spec_guild_index(guild_id@) == gi as int,
                n == self.campaigns_by_guild@[gi as int].1@.len(),
                out@.len() == k,
                forall|i: int|
                    0 <= i < k ==> spec_matches_info(
                        #[trigger] out@[i],
                        self.spec_campaign(self.spec_guild_list(guild_id@)[i]@),
                    ),
        {
            let id = &self.campaigns_by_guild[gi].1[k];
            match self.find_campaign(id) {
                Some(ci) => {
                    out.push(self.campaigns[ci].1.get_campaign_info());
                },
                None => {
                    proof {
                        assert(self.spec_has_campaign(
                            self.campaigns_by_guild@[gi as int].1@[k as int]@,
                        ));
                    }
                    return unreached();
                },
            }
        }
        out
    }

    /// Whether `user_id` has successfully claimed the campaign under
    /// `hash`; an unknown identifier has no claims.
    pub fn check_is_claimed(&self, user_id: String, hash: String) -> (r: bool)
        requires
            self.wf(),
        ensures
            r == (self.spec_has_campaign(hash@) && self.spec_campaign(hash@).spec_claimed(
                user_id@,
            )),
    {
        match self.find_campaign(&hash) {
            Some(i) => self.campaigns[i].1.check_claimed(user_id),
            None => false,
        }
    }
}

} // verus!
