//! The stored records of a campaign.
use vstd::prelude::*;

use crate::amounts;
use crate::amounts::shortfall;

verus! {

/// Why a view cannot be given.
#[derive(Clone, Copy, Debug, PartialEq, Eq, Structural)]
pub enum Error {
    /// No campaign is stored yet.
    NotInitialized,
    /// A milestone index is out of range, or nothing is stored under it.
    MilestoneNotFound,
}

/// Where a campaign stands.
#[derive(Clone, Copy, Debug, PartialEq, Eq, Structural)]
pub enum CampaignStatus {
    /// Running, below its goal.
    Active,
    /// Running, with its goal met.
    GoalReached,
    /// Past its end time.
    Ended,
    /// Called off.
    Cancelled,
}

/// Where a milestone stands.
#[derive(Clone, Copy, Debug, PartialEq, Eq, Structural)]
pub enum MilestoneStatus {
    /// Not yet eligible for release.
    Locked,
    /// Eligible for release.
    Unlocked,
    /// Paid out.
    Released,
}

/// An account or contract address, as the characters of its strkey.
#[derive(Clone, Copy, Debug, PartialEq, Eq)]
pub struct Address {
    pub strkey: [u8; 56],
}

impl Address {
    /// Tells whether both are the same address.
    pub fn same(&self, other: &Address) -> (res: bool)
        ensures
            res == (self.strkey@ == other.strkey@),
    {
        for i in 0..56usize
            invariant
                forall|j: int| 0 <= j < i ==> self.strkey@[j] == other.strkey@[j],
        {
            if self.strkey[i] != other.strkey[i] {
                return false;
            }
        }
        assert(self.strkey@ =~= other.strkey@);
        true
    }
}

/// An asset that a campaign accepts. The native asset may have no issuer.
#[derive(Debug, PartialEq, Eq)]
pub struct StellarAsset {
    pub asset_code: soroban_sdk::String,
    pub issuer: Option<Address>,
}

/// A stored milestone.
#[derive(Clone, Copy, Debug, PartialEq, Eq)]
pub struct MilestoneData {
    pub index: u32,
    pub target_amount: i128,
    pub released_amount: i128,
    pub description_hash: [u8; 32],
    pub status: MilestoneStatus,
    pub released_at: Option<u64>,
    pub released_at_ledger: Option<u32>,
    pub release_tx: Option<[u8; 32]>,
    pub released_to: Option<Address>,
}

impl MilestoneData {
    /// The amount still to be released.
    pub open spec fn pending(self) -> int {
        amounts::shortfall_of(self.target_amount as int, self.released_amount as int)
    }

    /// Whether the whole target has been released.
    pub open spec fn fully_released(self) -> bool {
        self.released_amount >= self.target_amount
    }

    /// The amount still to be released for this milestone.
    pub fn pending_release(&self) -> (amount: i128)
        ensures
            amount == self.pending(),
    {
        shortfall(self.target_amount, self.released_amount)
    }

    /// Tells whether the released amount has reached the target.
    pub fn is_fully_released(&self) -> (res: bool)
        ensures
            res == self.fully_released(),
    {
        self.released_amount >= self.target_amount
    }
}

/// A stored campaign.
#[derive(Debug, PartialEq, Eq)]
pub struct CampaignData {
    pub creator: Address,
    pub goal_amount: i128,
    pub raised_amount: i128,
    pub end_time: u64,
    pub status: CampaignStatus,
    pub accepted_assets: Vec<StellarAsset>,
    pub milestone_count: u32,
}

impl CampaignData {
    /// The amount still missing from the goal.
    pub open spec fn missing(self) -> int {
        amounts::shortfall_of(self.goal_amount as int, self.raised_amount as int)
    }

    /// Whether donations are taken: while the campaign runs, also past its goal.
    pub open spec fn takes_donations(self) -> bool {
        self.status is Active || self.status is GoalReached
    }

    /// The amount still missing from the goal.
    pub fn remaining(&self) -> (amount: i128)
        ensures
            amount == self.missing(),
    {
        shortfall(self.goal_amount, self.raised_amount)
    }

    /// Tells whether the campaign takes donations.
    pub fn is_accepting_donations(&self) -> (res: bool)
        ensures
            res == self.takes_donations(),
    {
        matches!(self.status, CampaignStatus::Active | CampaignStatus::GoalReached)
    }
}

} // verus!
