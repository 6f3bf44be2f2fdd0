//! The records that the views read.
use std::collections::BTreeMap;
use vstd::prelude::*;

use crate::types::{Address, CampaignData, MilestoneData};

verus! {

broadcast use vstd::std_specs::btree::group_btree_axioms;

/// What is stored of a campaign.
pub struct StoredRecords {
    /// The campaign itself, once it is initialised.
    pub campaign: Option<CampaignData>,
    /// The milestones by index.
    pub milestones: Map<u32, MilestoneData>,
    /// The amounts raised, by the strkey of the asset's issuer.
    pub asset_raised: Map<Seq<u8>, i128>,
}

/// The stored records of one campaign, as read from the ledger.
pub struct CampaignStorage {
    campaign: Option<CampaignData>,
    milestones: BTreeMap<u32, MilestoneData>,
    asset_raised: Vec<(Address, i128)>,
}

/// The amounts of `entries` by strkey, where a later entry replaces an earlier
/// one of the same address.
closed spec fn amounts_by_strkey(entries: Seq<(Address, i128)>) -> Map<Seq<u8>, i128>
    decreases entries.len(),
{
    if entries.len() == 0 {
        Map::empty()
    } else {
        amounts_by_strkey(entries.drop_last()).insert(
            entries.last().0.strkey@,
            entries.last().1,
        )
    }
}

impl View for CampaignStorage {
    type V = StoredRecords;

    closed spec fn view(&self) -> StoredRecords {
        StoredRecords {
            campaign: self.campaign,
            milestones: self.milestones@,
            asset_raised: amounts_by_strkey(self.asset_raised@),
        }
    }
}

impl CampaignStorage {
    /// A storage that holds nothing.
    pub fn new() -> (storage: CampaignStorage)
        ensures
            storage@.campaign is None,
            storage@.milestones == Map::<u32, MilestoneData>::empty(),
            storage@.asset_raised == Map::<Seq<u8>, i128>::empty(),
    {
        CampaignStorage { campaign: None, milestones: BTreeMap::new(), asset_raised: Vec::new() }
    }

    /// Stores the campaign.
    pub fn set_campaign(&mut self, campaign: CampaignData)
        ensures
            final(self)@ == (StoredRecords { campaign: Some(campaign), ..old(self)@ }),
    {
        self.campaign = Some(campaign);
    }

    /// Stores a milestone under its index.
    pub fn set_milestone(&mut self, index: u32, milestone: MilestoneData)
        ensures
            final(self)@ == (StoredRecords {
                milestones: old(self)@.milestones.insert(index, milestone),
                ..old(self)@
            }),
    {
        self.milestones.insert(index, milestone);
    }

    /// Stores the amount raised in the asset of an issuer.
    pub fn set_asset_raised(&mut self, issuer: Address, amount: i128)
        ensures
            final(self)@ == (StoredRecords {
                asset_raised: old(self)@.asset_raised.insert(issuer.strkey@, amount),
                ..old(self)@
            }),
    {
        self.asset_raised.push((issuer, amount));
        assert(self.asset_raised@.drop_last() =~= old(self).asset_raised@);
    }

    /// The stored campaign, if there is one.
    pub fn get_campaign(&self) -> (campaign: Option<&CampaignData>)
        ensures
            campaign is Some <==> self@.campaign is Some,
            campaign matches Some(c) ==> self@.campaign == Some(*c),
    {
        self.campaign.as_ref()
    }

    /// The milestone stored under `index`, if there is one.
    pub fn get_milestone(&self, index: u32) -> (milestone: Option<MilestoneData>)
        ensures
            milestone == (if self@.milestones.contains_key(index) {
                Some(self@.milestones[index])
            } else {
                None
            }),
    {
        match self.milestones.get(&index) {
            Some(milestone) => Some(*milestone),
            None => None,
        }
    }

    /// The amount raised in the asset of `issuer`: 0 when none is stored.
    pub fn get_asset_raised(&self, issuer: &Address) -> (amount: i128)
        ensures
            amount == (if self@.asset_raised.contains_key(issuer.strkey@) {
                self@.asset_raised[issuer.strkey@] as int
            } else {
                0
            }),
    {
        let ghost entries = self.asset_raised@;
        let mut rest: usize = self.asset_raised.len();
        assert(entries.take(rest as int) =~= entries);
        while rest > 0
            invariant
                rest <= entries.len(),
                entries == self.asset_raised@,
                amounts_by_strkey(entries).contains_key(issuer.strkey@)
                    == amounts_by_strkey(entries.take(rest as int)).contains_key(issuer.strkey@),
                amounts_by_strkey(entries).contains_key(issuer.strkey@) ==> amounts_by_strkey(
                    entries,
                )[issuer.strkey@] == amounts_by_strkey(entries.take(rest as int))[issuer.strkey@],
            decreases rest,
        {
            let ghost before = entries.take(rest as int);
            rest = rest - 1;
            assert(before.drop_last() =~= entries.take(rest as int));
            assert(before.last() == entries[rest as int]);
            if self.asset_raised[rest].0.same(issuer) {
                return self.asset_raised[rest].1;
            }
        }
        0
    }
}

} // verus!
