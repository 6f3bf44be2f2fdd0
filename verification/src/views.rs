//! The views of a campaign.
use vstd::prelude::*;

use crate::{amounts, host, milestones};
use crate::amounts::{progress_bps, saturating_sum};
use crate::host::{copy_string, is_utf8, new_balances, push_balance, string_text};
use crate::milestones::{count_released_milestones, find_next_pending_index, Milestones};
use crate::storage::CampaignStorage;
use crate::types::{
    Address, CampaignData, CampaignStatus, Error, MilestoneData, MilestoneStatus, StellarAsset,
};

verus! {

/// A milestone with the fields that follow from the stored ones.
#[derive(Clone, Copy, Debug, PartialEq, Eq)]
pub struct MilestoneView {
    /// The stored milestone.
    pub data: MilestoneData,
    /// The amount still to be released for this milestone.
    pub pending_release: i128,
    /// Whether the released amount has reached the target.
    pub is_fully_released: bool,
    /// Whether this milestone is the next one to be released.
    pub is_next_pending: bool,
}

/// A campaign with the fields that follow from the stored ones.
#[derive(Clone, Copy, Debug, PartialEq, Eq)]
pub struct CampaignSummary {
    pub creator: Address,
    pub goal_amount: i128,
    pub raised_amount: i128,
    pub remaining_to_goal: i128,
    /// Basis points: from 0 to 10 000 (100.00 %).
    pub progress_bps: u32,
    pub end_time: u64,
    pub status: CampaignStatus,
    pub milestone_count: u32,
    pub milestones_released: u32,
    pub all_milestones_released: bool,
    pub accepts_donations: bool,
}

/// Counts and totals over all milestones.
#[derive(Clone, Copy, Debug, PartialEq, Eq)]
pub struct MilestoneSummary {
    pub total: u32,
    pub locked: u32,
    pub unlocked: u32,
    pub released: u32,
    pub total_released_amount: i128,
    pub total_pending_amount: i128,
    /// The index of the next milestone awaiting release, if any.
    pub next_pending_index: Option<u32>,
}

impl MilestoneView {
    /// Whether this is the view of the milestone stored under `index`.
    pub open spec fn shows(self, milestones: Milestones, index: u32) -> bool {
        &&& milestones.contains_key(index)
        &&& self.data == milestones[index]
        &&& self.pending_release == milestones[index].pending()
        &&& self.is_fully_released == milestones[index].fully_released()
        &&& self.is_next_pending == milestones::is_next(milestones, index)
    }
}

impl CampaignSummary {
    /// Whether this sums up the campaign and its milestones.
    pub open spec fn sums_up(self, campaign: CampaignData, milestones: Milestones) -> bool {
        &&& self.creator == campaign.creator
        &&& self.goal_amount == campaign.goal_amount
        &&& self.raised_amount == campaign.raised_amount
        &&& self.remaining_to_goal == campaign.missing()
        &&& self.progress_bps == amounts::progress(campaign.raised_amount, campaign.goal_amount)
        &&& self.end_time == campaign.end_time
        &&& self.status == campaign.status
        &&& self.milestone_count == campaign.milestone_count
        &&& self.milestones_released == milestones::count_with_status(
            milestones,
            campaign.milestone_count,
            MilestoneStatus::Released,
        )
        &&& self.all_milestones_released == (self.milestones_released == campaign.milestone_count)
        &&& self.accepts_donations == campaign.takes_donations()
    }
}

impl MilestoneSummary {
    /// Whether this sums up the milestones with an index below `count`.
    pub open spec fn sums_up(self, milestones: Milestones, count: u32) -> bool {
        &&& self.total == count
        &&& self.locked == milestones::count_with_status(milestones, count, MilestoneStatus::Locked)
        &&& self.unlocked == milestones::count_with_status(milestones, count, MilestoneStatus::Unlocked)
        &&& self.released == milestones::count_with_status(milestones, count, MilestoneStatus::Released)
        &&& self.total_released_amount == milestones::released_total(milestones, count)
        &&& self.total_pending_amount == milestones::pending_total(milestones, count)
        &&& milestones::names_next(milestones, count, self.next_pending_index)
    }
}

/// Whether `index` is in range and a milestone is stored under it.
pub open spec fn is_known(campaign: CampaignData, milestones: Milestones, index: u32) -> bool {
    index < campaign.milestone_count && milestones.contains_key(index)
}

/// Whether the milestone under `index` can be released right now: the campaign
/// is not cancelled, the milestone is `Unlocked`, and each one before it is
/// `Released`.
pub open spec fn releasable(campaign: CampaignData, milestones: Milestones, index: u32) -> bool {
    &&& !(campaign.status is Cancelled)
    &&& index < campaign.milestone_count
    &&& milestones::has_status(milestones, index, MilestoneStatus::Unlocked)
    &&& milestones::prior_released(milestones, index)
}

/// The entry that an accepted asset has among the balances: the bytes of its
/// code, and the amount stored for its issuer, or 0 when it has no issuer or
/// nothing is stored.
pub open spec fn balance_of(asset: StellarAsset, asset_raised: Map<Seq<u8>, i128>) -> (
    Seq<u8>,
    i128,
) {
    (
        host::string_bytes(asset.asset_code),
        match asset.issuer {
            Some(issuer) if asset_raised.contains_key(issuer.strkey@) => asset_raised[issuer.strkey@],
            _ => 0,
        },
    )
}

/// The entries of all accepted assets, in their order.
pub open spec fn balances_of(
    assets: Seq<StellarAsset>,
    asset_raised: Map<Seq<u8>, i128>,
) -> Seq<(Seq<u8>, i128)> {
    assets.map_values(|asset: StellarAsset| balance_of(asset, asset_raised))
}

/// Whether a host list can hold an entry for each asset, and each asset code is
/// text.
pub open spec fn presentable(assets: Seq<StellarAsset>) -> bool {
    &&& assets.len() <= u32::MAX
    &&& forall|i: int|
        0 <= i < assets.len() ==> vstd::utf8::valid_utf8(
            host::string_bytes((#[trigger] assets[i]).asset_code),
        )
}

/// Puts together the view of a stored milestone.
fn view_of(data: MilestoneData, is_next_pending: bool) -> (view: MilestoneView)
    ensures
        view.data == data,
        view.pending_release == data.pending(),
        view.is_fully_released == data.fully_released(),
        view.is_next_pending == is_next_pending,
{
    let pending_release: i128 = data.pending_release();
    let is_fully_released = data.is_fully_released();
    MilestoneView { data, pending_release, is_fully_released, is_next_pending }
}

/// All milestones in index order, each with its computed fields.
///
/// Fails with `NotInitialized` when no campaign is stored, and with
/// `MilestoneNotFound` when a milestone of the campaign is not stored.
pub fn get_all_milestones(storage: &CampaignStorage) -> (res: Result<Vec<MilestoneView>, Error>)
    ensures
        match res {
            Err(Error::NotInitialized) => storage@.campaign is None,
            Err(Error::MilestoneNotFound) => {
                &&& storage@.campaign is Some
                &&& !milestones::all_stored(
                    storage@.milestones,
                    storage@.campaign->0.milestone_count,
                )
            },
            Ok(views) => {
                &&& storage@.campaign is Some
                &&& milestones::all_stored(
                    storage@.milestones,
                    storage@.campaign->0.milestone_count,
                )
                &&& views@.len() == storage@.campaign->0.milestone_count
                &&& forall|i: int|
                    0 <= i < views@.len() ==> (#[trigger] views@[i]).shows(
                        storage@.milestones,
                        i as u32,
                    )
            },
        },
{
    let campaign = match storage.get_campaign() {
        Some(campaign) => campaign,
        None => return Err(Error::NotInitialized),
    };
    let count: u32 = campaign.milestone_count;
    let next_pending_index = find_next_pending_index(storage, count);
    let mut views: Vec<MilestoneView> = Vec::new();
    for i in 0..count
        invariant
            storage@.campaign is Some,
            count == storage@.campaign->0.milestone_count,
            milestones::names_next(storage@.milestones, count, next_pending_index),
            views@.len() == i,
            milestones::all_stored(storage@.milestones, i),
            forall|j: int|
                0 <= j < i ==> (#[trigger] views@[j]).shows(storage@.milestones, j as u32),
    {
        let data = match storage.get_milestone(i) {
            Some(data) => data,
            None => return Err(Error::MilestoneNotFound),
        };
        let is_next_pending = matches!(next_pending_index, Some(next) if next == i);
        views.push(view_of(data, is_next_pending));
    }
    Ok(views)
}

/// The milestone under `index`, with its computed fields.
///
/// Fails with `NotInitialized` when no campaign is stored, and with
/// `MilestoneNotFound` when `index` is out of range or nothing is stored under
/// it.
pub fn get_milestone_by_index(storage: &CampaignStorage, index: u32) -> (res: Result<
    MilestoneView,
    Error,
>)
    ensures
        match res {
            Err(Error::NotInitialized) => storage@.campaign is None,
            Err(Error::MilestoneNotFound) => {
                &&& storage@.campaign is Some
                &&& !is_known(storage@.campaign->0, storage@.milestones, index)
            },
            Ok(view) => {
                &&& storage@.campaign is Some
                &&& is_known(storage@.campaign->0, storage@.milestones, index)
                &&& view.shows(storage@.milestones, index)
            },
        },
{
    let campaign = match storage.get_campaign() {
        Some(campaign) => campaign,
        None => return Err(Error::NotInitialized),
    };
    if index >= campaign.milestone_count {
        return Err(Error::MilestoneNotFound);
    }
    let data = match storage.get_milestone(index) {
        Some(data) => data,
        None => return Err(Error::MilestoneNotFound),
    };
    let next_pending_index = find_next_pending_index(storage, campaign.milestone_count);
    let is_next_pending = matches!(next_pending_index, Some(next) if next == index);
    Ok(view_of(data, is_next_pending))
}

/// Counts and totals over the milestones of the campaign. An index under which
/// no milestone is stored counts towards the total only.
///
/// Fails with `NotInitialized` when no campaign is stored.
pub fn get_milestone_summary(storage: &CampaignStorage) -> (res: Result<MilestoneSummary, Error>)
    ensures
        match res {
            Err(error) => error == Error::NotInitialized && storage@.campaign is None,
            Ok(summary) => {
                &&& storage@.campaign is Some
                &&& summary.sums_up(storage@.milestones, storage@.campaign->0.milestone_count)
            },
        },
{
    let campaign = match storage.get_campaign() {
        Some(campaign) => campaign,
        None => return Err(Error::NotInitialized),
    };
    let count: u32 = campaign.milestone_count;
    let mut locked: u32 = 0;
    let mut unlocked: u32 = 0;
    let mut released: u32 = 0;
    let mut total_released_amount: i128 = 0;
    let mut total_pending_amount: i128 = 0;
    let mut next_pending_index: Option<u32> = None;
    for i in 0..count
        invariant
            locked <= i,
            unlocked <= i,
            released <= i,
            (MilestoneSummary {
                total: i,
                locked,
                unlocked,
                released,
                total_released_amount,
                total_pending_amount,
                next_pending_index,
            }).sums_up(storage@.milestones, i),
    {
        if let Some(milestone) = storage.get_milestone(i) {
            match milestone.status {
                MilestoneStatus::Locked => {
                    locked += 1;
                    total_pending_amount = saturating_sum(
                        total_pending_amount,
                        milestone.pending_release(),
                    );
                },
                MilestoneStatus::Unlocked => {
                    unlocked += 1;
                    total_pending_amount = saturating_sum(
                        total_pending_amount,
                        milestone.pending_release(),
                    );
                    if next_pending_index.is_none() {
                        next_pending_index = Some(i);
                    }
                },
                MilestoneStatus::Released => {
                    released += 1;
                    total_released_amount = saturating_sum(
                        total_released_amount,
                        milestone.released_amount,
                    );
                },
            }
        }
    }
    Ok(
        MilestoneSummary {
            total: count,
            locked,
            unlocked,
            released,
            total_released_amount,
            total_pending_amount,
            next_pending_index,
        },
    )
}

/// The campaign with its computed progress.
///
/// Fails with `NotInitialized` when no campaign is stored.
pub fn get_campaign_summary(storage: &CampaignStorage) -> (res: Result<CampaignSummary, Error>)
    ensures
        match res {
            Err(error) => error == Error::NotInitialized && storage@.campaign is None,
            Ok(summary) => {
                &&& storage@.campaign is Some
                &&& summary.sums_up(storage@.campaign->0, storage@.milestones)
            },
        },
{
    let campaign = match storage.get_campaign() {
        Some(campaign) => campaign,
        None => return Err(Error::NotInitialized),
    };
    let total: u32 = campaign.milestone_count;
    let released: u32 = count_released_milestones(storage, total);
    Ok(
        CampaignSummary {
            creator: campaign.creator,
            goal_amount: campaign.goal_amount,
            raised_amount: campaign.raised_amount,
            remaining_to_goal: campaign.remaining(),
            progress_bps: progress_bps(campaign.raised_amount, campaign.goal_amount),
            end_time: campaign.end_time,
            status: campaign.status,
            milestone_count: total,
            milestones_released: released,
            all_milestones_released: released == total,
            accepts_donations: campaign.is_accepting_donations(),
        },
    )
}

/// The amount raised in each accepted asset, in the order in which the
/// campaign accepts them.
///
/// Fails with `NotInitialized` when no campaign is stored.
pub fn get_asset_balances(env: &soroban_sdk::Env, storage: &CampaignStorage) -> (res: Result<
    soroban_sdk::Vec<(soroban_sdk::Bytes, i128)>,
    Error,
>)
    requires
        storage@.campaign matches Some(campaign) ==> presentable(campaign.accepted_assets@),
    ensures
        match res {
            Err(error) => error == Error::NotInitialized && storage@.campaign is None,
            Ok(balances) => {
                &&& storage@.campaign is Some
                &&& host::balance_entries(balances) == balances_of(
                    storage@.campaign->0.accepted_assets@,
                    storage@.asset_raised,
                )
            },
        },
{
    let campaign = match storage.get_campaign() {
        Some(campaign) => campaign,
        None => return Err(Error::NotInitialized),
    };
    let ghost expected = balances_of(campaign.accepted_assets@, storage@.asset_raised);
    let mut balances = new_balances(env);
    assert(expected.take(0) =~= Seq::empty());
    for i in 0..campaign.accepted_assets.len()
        invariant
            presentable(campaign.accepted_assets@),
            expected == balances_of(campaign.accepted_assets@, storage@.asset_raised),
            host::balance_entries(balances) == expected.take(i as int),
    {
        let asset = &campaign.accepted_assets[i];
        let amount: i128 = match &asset.issuer {
            Some(issuer) => storage.get_asset_raised(issuer),
            None => 0,
        };
        let code = string_text(&asset.asset_code);
        push_balance(&mut balances, code.as_str().as_bytes(), amount);
        assert(expected.take(i as int).push(expected[i as int]) =~= expected.take(i + 1));
    }
    assert(expected.take(expected.len() as int) =~= expected);
    Ok(balances)
}

/// Tells whether the balances of these assets can be given.
fn can_present(assets: &Vec<StellarAsset>) -> (res: bool)
    ensures
        res == presentable(assets@),
{
    if assets.len() > u32::MAX as usize {
        return false;
    }
    for i in 0..assets.len()
        invariant
            assets@.len() <= u32::MAX,
            presentable(assets@.take(i as int)),
    {
        let code: Vec<u8> = copy_string(&assets[i].asset_code);
        if !is_utf8(code.as_slice()) {
            assert(!vstd::utf8::valid_utf8(host::string_bytes(assets@[i as int].asset_code)));
            return false;
        }
        assert(assets@.take(i + 1) =~= assets@.take(i as int).push(assets@[i as int]));
    }
    assert(assets@.take(assets@.len() as int) =~= assets@);
    true
}

/// The amount raised in each accepted asset, or `None` when there are more
/// assets than a host list holds or an asset code is not text.
///
/// Fails with `NotInitialized` when no campaign is stored.
pub fn try_get_asset_balances(env: &soroban_sdk::Env, storage: &CampaignStorage) -> (res: Result<
    Option<soroban_sdk::Vec<(soroban_sdk::Bytes, i128)>>,
    Error,
>)
    ensures
        match res {
            Err(error) => error == Error::NotInitialized && storage@.campaign is None,
            Ok(None) => {
                &&& storage@.campaign is Some
                &&& !presentable(storage@.campaign->0.accepted_assets@)
            },
            Ok(Some(balances)) => {
                &&& storage@.campaign is Some
                &&& presentable(storage@.campaign->0.accepted_assets@)
                &&& host::balance_entries(balances) == balances_of(
                    storage@.campaign->0.accepted_assets@,
                    storage@.asset_raised,
                )
            },
        },
{
    if let Some(campaign) = storage.get_campaign() {
        if !can_present(&campaign.accepted_assets) {
            return Ok(None);
        }
    }
    match get_asset_balances(env, storage) {
        Ok(balances) => Ok(Some(balances)),
        Err(error) => Err(error),
    }
}

/// Tells whether the milestone under `index` can be released right now: it is
/// `Unlocked`, all prior milestones are `Released`, and the campaign is not
/// cancelled.
///
/// Fails with `NotInitialized` when no campaign is stored. Unless the campaign
/// is cancelled, fails with `MilestoneNotFound` when `index` is out of range or
/// nothing is stored under it.
pub fn is_milestone_releasable(storage: &CampaignStorage, index: u32) -> (res: Result<bool, Error>)
    ensures
        match res {
            Err(Error::NotInitialized) => storage@.campaign is None,
            Err(Error::MilestoneNotFound) => {
                &&& storage@.campaign is Some
                &&& !(storage@.campaign->0.status is Cancelled)
                &&& !is_known(storage@.campaign->0, storage@.milestones, index)
            },
            Ok(answer) => {
                &&& storage@.campaign is Some
                &&& storage@.campaign->0.status is Cancelled || is_known(
                    storage@.campaign->0,
                    storage@.milestones,
                    index,
                )
                &&& answer == releasable(storage@.campaign->0, storage@.milestones, index)
            },
        },
{
    let campaign = match storage.get_campaign() {
        Some(campaign) => campaign,
        None => return Err(Error::NotInitialized),
    };
    if campaign.status == CampaignStatus::Cancelled {
        return Ok(false);
    }
    if index >= campaign.milestone_count {
        return Err(Error::MilestoneNotFound);
    }
    let target = match storage.get_milestone(index) {
        Some(target) => target,
        None => return Err(Error::MilestoneNotFound),
    };
    if target.status != MilestoneStatus::Unlocked {
        return Ok(false);
    }
    for prior in 0..index
        invariant
            storage@.campaign == Some(*campaign),
            !(campaign.status is Cancelled),
            index < campaign.milestone_count,
            storage@.milestones.contains_key(index),
            milestones::prior_released(storage@.milestones, prior),
    {
        let released = match storage.get_milestone(prior) {
            Some(milestone) => milestone.status == MilestoneStatus::Released,
            None => false,
        };
        if !released {
            assert(!milestones::has_status(storage@.milestones, prior, MilestoneStatus::Released));
            return Ok(false);
        }
    }
    Ok(true)
}

} // verus!
