//! What the functions of the library answer, in terms of the fields of the
//! stored records, and how the answers of two calls relate.
use vstd::prelude::*;

use crate::amounts::{progress_bps, saturating_sum, shortfall};
use crate::milestones::{count_released_milestones, find_next_pending_index};
use crate::storage::CampaignStorage;
use crate::types::{Address, CampaignData, CampaignStatus, Error, MilestoneData};
use crate::views::{
    get_all_milestones, get_asset_balances, get_campaign_summary, get_milestone_by_index,
    get_milestone_summary, is_milestone_releasable, try_get_asset_balances, CampaignSummary,
    MilestoneSummary, MilestoneView,
};
use crate::{host, laws, readings};

verus! {

/// The list of all milestones has one view for each index below the count, in
/// index order. Each holds the stored record as it is; what is pending is the
/// part of the target that is not released, and 0 exactly when the target is
/// reached; the flag of the next milestone is set on the first record that is
/// `Unlocked`. The list is refused exactly when no campaign is stored or a
/// record is missing.
pub proof fn all_milestones_read_the_records(
    storage: &CampaignStorage,
    res: Result<Vec<MilestoneView>, Error>,
)
    requires
        call_ensures(get_all_milestones, (storage,), res),
    ensures
        res == Err::<Vec<MilestoneView>, Error>(Error::NotInitialized)
            <==> storage@.campaign is None,
        storage@.campaign matches Some(campaign) ==> {
            &&& res is Ok <==> forall|i: u32|
                i < campaign.milestone_count ==> #[trigger] storage@.milestones.contains_key(i)
            &&& res matches Err(error) ==> error == Error::MilestoneNotFound
            &&& res matches Ok(list) ==> list@.len() == campaign.milestone_count
        },
        res matches Ok(list) ==> forall|i: int|
            0 <= i < list@.len() ==> {
                let view = #[trigger] list@[i];
                &&& storage@.milestones.contains_key(i as u32)
                &&& view.data == storage@.milestones[i as u32]
                &&& 0 <= view.data.released_amount <= view.data.target_amount
                    ==> view.data.released_amount + view.pending_release == view.data.target_amount
                &&& view.pending_release == vstd::math::min(
                    vstd::math::max(view.data.target_amount - view.data.released_amount, 0),
                    i128::MAX as int,
                )
                &&& view.is_fully_released <==> view.data.released_amount
                    >= view.data.target_amount
                &&& view.pending_release == 0 <==> view.is_fully_released
                &&& view.is_next_pending <==> {
                    &&& view.data.status is Unlocked
                    &&& forall|j: u32|
                        j < i && #[trigger] storage@.milestones.contains_key(j) ==> !(
                        storage@.milestones[j].status is Unlocked)
                }
            },
{
    if let Ok(list) = res {
        assert forall|i: int| 0 <= i < list@.len() implies {
            let view = #[trigger] list@[i];
            &&& storage@.milestones.contains_key(i as u32)
            &&& view.data == storage@.milestones[i as u32]
            &&& 0 <= view.data.released_amount <= view.data.target_amount
                ==> view.data.released_amount + view.pending_release == view.data.target_amount
            &&& view.pending_release == vstd::math::min(
                vstd::math::max(view.data.target_amount - view.data.released_amount, 0),
                i128::MAX as int,
            )
            &&& view.is_fully_released <==> view.data.released_amount >= view.data.target_amount
            &&& view.pending_release == 0 <==> view.is_fully_released
            &&& view.is_next_pending <==> {
                &&& view.data.status is Unlocked
                &&& forall|j: u32|
                    j < i && #[trigger] storage@.milestones.contains_key(j) ==> !(
                    storage@.milestones[j].status is Unlocked)
            }
        } by {
            readings::view_reads_the_record(storage@.milestones, i as u32, list@[i]);
        }
    }
}

/// The view of one milestone holds the stored record as it is, with what is
/// pending, whether the target is reached, and whether it is the first record
/// that is `Unlocked`. It is refused exactly when no campaign is stored, the
/// index is past the count, or nothing is stored under it.
pub proof fn one_milestone_reads_the_record(
    storage: &CampaignStorage,
    index: u32,
    res: Result<MilestoneView, Error>,
)
    requires
        call_ensures(get_milestone_by_index, (storage, index), res),
    ensures
        res == Err::<MilestoneView, Error>(Error::NotInitialized) <==> storage@.campaign is None,
        storage@.campaign matches Some(campaign) ==> {
            &&& res is Ok <==> index < campaign.milestone_count
                && storage@.milestones.contains_key(index)
            &&& res matches Err(error) ==> error == Error::MilestoneNotFound
        },
        res matches Ok(view) ==> {
            &&& view.data == storage@.milestones[index]
            &&& 0 <= view.data.released_amount <= view.data.target_amount
                ==> view.data.released_amount + view.pending_release == view.data.target_amount
            &&& view.pending_release == vstd::math::min(
                vstd::math::max(view.data.target_amount - view.data.released_amount, 0),
                i128::MAX as int,
            )
            &&& view.is_fully_released <==> view.data.released_amount >= view.data.target_amount
            &&& view.pending_release == 0 <==> view.is_fully_released
            &&& view.is_next_pending <==> {
                &&& view.data.status is Unlocked
                &&& forall|j: u32|
                    j < index && #[trigger] storage@.milestones.contains_key(j) ==> !(
                    storage@.milestones[j].status is Unlocked)
            }
        },
{
    if let Ok(view) = res {
        readings::view_reads_the_record(storage@.milestones, index, view);
    }
}

/// Where the list of all milestones is given, the view of one milestone is the
/// entry of the list at its index.
pub proof fn one_milestone_is_its_entry_in_the_list(
    storage: &CampaignStorage,
    list: Vec<MilestoneView>,
    index: u32,
    res: Result<MilestoneView, Error>,
)
    requires
        call_ensures(get_all_milestones, (storage,), Ok::<Vec<MilestoneView>, Error>(list)),
        call_ensures(get_milestone_by_index, (storage, index), res),
    ensures
        index < list@.len() ==> res == Ok::<MilestoneView, Error>(list@[index as int]),
        index >= list@.len() ==> res == Err::<MilestoneView, Error>(Error::MilestoneNotFound),
{
    all_milestones_read_the_records(storage, Ok::<Vec<MilestoneView>, Error>(list));
    one_milestone_reads_the_record(storage, index, res);
}

/// A milestone is answered to be releasable exactly when the campaign is not
/// cancelled, its record is stored below the count with the status field
/// `Unlocked`, and each index below it has a record with the status field
/// `Released`. Of a campaign that is not cancelled, the question is refused
/// exactly when the index is past the count or nothing is stored under it.
pub proof fn releasable_answer_reads_the_status_fields(
    storage: &CampaignStorage,
    index: u32,
    res: Result<bool, Error>,
)
    requires
        call_ensures(is_milestone_releasable, (storage, index), res),
    ensures
        res == Err::<bool, Error>(Error::NotInitialized) <==> storage@.campaign is None,
        res == Err::<bool, Error>(Error::MilestoneNotFound) <==> {
            &&& storage@.campaign matches Some(campaign)
            &&& !(campaign.status is Cancelled)
            &&& index >= campaign.milestone_count || !storage@.milestones.contains_key(index)
        },
        res == Ok::<bool, Error>(true) <==> {
            &&& storage@.campaign matches Some(campaign)
            &&& !(campaign.status is Cancelled)
            &&& index < campaign.milestone_count
            &&& storage@.milestones.contains_key(index)
            &&& storage@.milestones[index].status is Unlocked
            &&& forall|i: u32|
                i < index ==> #[trigger] storage@.milestones.contains_key(i)
                    && storage@.milestones[i].status is Released
        },
{
    if let Some(campaign) = storage@.campaign {
        readings::releasable_reads_the_status_fields(campaign, storage@.milestones, index);
    }
}

/// A milestone that is answered to be releasable is the next one in the
/// milestone summary, it carries the flag of the next one, and it is not
/// answered to be releasable again once it is stored as `Released`.
pub proof fn releasable_answer_is_next_and_once(
    storage: &CampaignStorage,
    index: u32,
    summary: MilestoneSummary,
    view: MilestoneView,
    released: MilestoneData,
    later: &CampaignStorage,
    again: Result<bool, Error>,
)
    requires
        call_ensures(is_milestone_releasable, (storage, index), Ok::<bool, Error>(true)),
        call_ensures(get_milestone_summary, (storage,), Ok::<MilestoneSummary, Error>(summary)),
        call_ensures(get_milestone_by_index, (storage, index), Ok::<MilestoneView, Error>(view)),
        later@.campaign == storage@.campaign,
        later@.milestones == storage@.milestones.insert(index, released),
        released.status is Released,
        call_ensures(is_milestone_releasable, (later, index), again),
    ensures
        summary.next_pending_index == Some(index),
        view.is_next_pending,
        again == Ok::<bool, Error>(false),
{
    let campaign = storage@.campaign->0;
    laws::releasable_is_next(campaign, storage@.milestones, index);
    laws::next_answers_agree(
        storage@.milestones,
        campaign.milestone_count,
        Some(index),
        summary.next_pending_index,
    );
    laws::flag_marks_the_named_index(
        storage@.milestones,
        campaign.milestone_count,
        summary,
        index,
        view,
    );
    releasable_answer_reads_the_status_fields(later, index, again);
    if let Err(error) = again {
        assert(error == Error::NotInitialized || error == Error::MilestoneNotFound);
    }
}

/// A scan for the next milestone finds the first record, by index, that is
/// `Unlocked`, and nothing exactly when no record below the count is.
pub proof fn scan_finds_the_first_unlocked_record(
    storage: &CampaignStorage,
    count: u32,
    next: Option<u32>,
)
    requires
        call_ensures(find_next_pending_index, (storage, count), next),
    ensures
        match next {
            Some(index) => {
                &&& index < count
                &&& storage@.milestones.contains_key(index)
                &&& storage@.milestones[index].status is Unlocked
                &&& forall|i: u32|
                    i < index && #[trigger] storage@.milestones.contains_key(i) ==> !(
                    storage@.milestones[i].status is Unlocked)
            },
            None => forall|i: u32|
                i < count && #[trigger] storage@.milestones.contains_key(i) ==> !(
                storage@.milestones[i].status is Unlocked),
        },
{
    readings::next_is_the_first_unlocked_record(storage@.milestones, count, next);
}

/// The released milestones are counted one by one: none for a count of zero,
/// and one more index adds one exactly when its record is `Released`.
pub proof fn released_are_counted_one_by_one(
    storage: &CampaignStorage,
    count: u32,
    fewer: u32,
    more: u32,
)
    requires
        count < u32::MAX,
        call_ensures(count_released_milestones, (storage, count), fewer),
        call_ensures(count_released_milestones, (storage, (count + 1) as u32), more),
    ensures
        count == 0 ==> fewer == 0,
        more == fewer + (if storage@.milestones.contains_key(count)
            && storage@.milestones[count].status is Released {
            1int
        } else {
            0
        }),
{
    assert(((count + 1) as u32 - 1) as u32 == count);
}

/// A milestone summary is refused exactly when no campaign is stored. Its total
/// is the milestone count, and the next milestone that it names is the first
/// record that is `Unlocked`.
pub proof fn summary_names_the_first_unlocked_record(
    storage: &CampaignStorage,
    res: Result<MilestoneSummary, Error>,
)
    requires
        call_ensures(get_milestone_summary, (storage,), res),
    ensures
        res is Err <==> storage@.campaign is None,
        res matches Err(error) ==> error == Error::NotInitialized,
        res matches Ok(summary) ==> {
            let count = storage@.campaign->0.milestone_count;
            &&& summary.total == count
            &&& match summary.next_pending_index {
                Some(index) => {
                    &&& index < count
                    &&& storage@.milestones.contains_key(index)
                    &&& storage@.milestones[index].status is Unlocked
                    &&& forall|i: u32|
                        i < index && #[trigger] storage@.milestones.contains_key(i) ==> !(
                        storage@.milestones[i].status is Unlocked)
                },
                None => forall|i: u32|
                    i < count && #[trigger] storage@.milestones.contains_key(i) ==> !(
                    storage@.milestones[i].status is Unlocked),
            }
        },
{
    if let Ok(summary) = res {
        readings::next_is_the_first_unlocked_record(
            storage@.milestones,
            storage@.campaign->0.milestone_count,
            summary.next_pending_index,
        );
    }
}

/// The summary of a campaign without milestones counts nothing.
pub proof fn summary_of_no_milestones_is_empty(
    storage: &CampaignStorage,
    summary: MilestoneSummary,
)
    requires
        storage@.campaign is Some,
        storage@.campaign->0.milestone_count == 0,
        call_ensures(get_milestone_summary, (storage,), Ok::<MilestoneSummary, Error>(summary)),
    ensures
        summary.total == 0,
        summary.locked == 0,
        summary.unlocked == 0,
        summary.released == 0,
        summary.total_released_amount == 0,
        summary.total_pending_amount == 0,
        summary.next_pending_index is None,
{
    readings::summary_of_nothing(storage@.milestones, summary);
}

/// Of two campaigns over the same records, of which one has one milestone more,
/// the summaries differ by the record of that milestone: one in the count of
/// its status, its released amount in the released total if it is `Released`,
/// and otherwise the part of its target that is not released in the pending
/// total. Both totals stop at the bounds of an amount.
pub proof fn summary_grows_by_the_record_of_one_milestone_more(
    storage: &CampaignStorage,
    longer: &CampaignStorage,
    before: MilestoneSummary,
    after: MilestoneSummary,
)
    requires
        storage@.campaign is Some,
        longer@.campaign is Some,
        longer@.campaign->0.milestone_count == storage@.campaign->0.milestone_count + 1,
        longer@.milestones == storage@.milestones,
        call_ensures(get_milestone_summary, (storage,), Ok::<MilestoneSummary, Error>(before)),
        call_ensures(get_milestone_summary, (longer,), Ok::<MilestoneSummary, Error>(after)),
    ensures
        ({
            let index = storage@.campaign->0.milestone_count;
            let stored = storage@.milestones.contains_key(index);
            let record = storage@.milestones[index];
            &&& after.locked - before.locked == (if stored && record.status is Locked {
                1int
            } else {
                0
            })
            &&& after.unlocked - before.unlocked == (if stored && record.status is Unlocked {
                1int
            } else {
                0
            })
            &&& after.released - before.released == (if stored && record.status is Released {
                1int
            } else {
                0
            })
            &&& after.total_released_amount == (if stored && record.status is Released {
                vstd::math::max(
                    vstd::math::min(
                        before.total_released_amount + record.released_amount,
                        i128::MAX as int,
                    ),
                    i128::MIN as int,
                )
            } else {
                before.total_released_amount as int
            })
            &&& after.total_pending_amount == (if stored && !(record.status is Released) {
                vstd::math::min(
                    before.total_pending_amount + vstd::math::max(
                        record.target_amount - record.released_amount,
                        0,
                    ),
                    i128::MAX as int,
                )
            } else {
                before.total_pending_amount as int
            })
        }),
{
    readings::summary_takes_in_one_more(
        storage@.milestones,
        storage@.campaign->0.milestone_count,
        before,
        after,
    );
}

/// Storing a record under an empty index of the campaign moves the summary by
/// that record alone, whatever the other milestones are: one in the count of
/// its status, and, unless it is `Released`, the part of its target that is not
/// released in the pending total. If it is, and no released amount is negative,
/// the released total grows by its released amount. Both totals stop at the
/// largest amount. A record stored past the count changes nothing.
pub proof fn summary_moves_by_the_record_that_is_stored(
    storage: &CampaignStorage,
    later: &CampaignStorage,
    index: u32,
    record: MilestoneData,
    before: MilestoneSummary,
    after: MilestoneSummary,
)
    requires
        storage@.campaign is Some,
        later@.campaign == storage@.campaign,
        !storage@.milestones.contains_key(index),
        later@.milestones == storage@.milestones.insert(index, record),
        call_ensures(get_milestone_summary, (storage,), Ok::<MilestoneSummary, Error>(before)),
        call_ensures(get_milestone_summary, (later,), Ok::<MilestoneSummary, Error>(after)),
    ensures
        index >= storage@.campaign->0.milestone_count ==> after == before,
        index < storage@.campaign->0.milestone_count ==> {
            &&& after.total == before.total
            &&& after.locked - before.locked == (if record.status is Locked {
                1int
            } else {
                0
            })
            &&& after.unlocked - before.unlocked == (if record.status is Unlocked {
                1int
            } else {
                0
            })
            &&& after.released - before.released == (if record.status is Released {
                1int
            } else {
                0
            })
            &&& after.total_pending_amount == (if record.status is Released {
                before.total_pending_amount as int
            } else {
                vstd::math::min(
                    before.total_pending_amount + vstd::math::max(
                        record.target_amount - record.released_amount,
                        0,
                    ),
                    i128::MAX as int,
                )
            })
            &&& !(record.status is Released) ==> after.total_released_amount
                == before.total_released_amount
            &&& record.status is Released && record.released_amount >= 0 && (forall|i: u32|
                i < storage@.campaign->0.milestone_count
                    && #[trigger] storage@.milestones.contains_key(i)
                    && storage@.milestones[i].status is Released
                    ==> storage@.milestones[i].released_amount >= 0)
                ==> after.total_released_amount == vstd::math::min(
                before.total_released_amount + record.released_amount,
                i128::MAX as int,
            )
            &&& after.next_pending_index == (if record.status is Unlocked && (
            before.next_pending_index is None || index < before.next_pending_index->0) {
                Some(index)
            } else {
                before.next_pending_index
            })
        },
{
    readings::storing_a_milestone_moves_the_summary(
        storage@.milestones,
        storage@.campaign->0.milestone_count,
        index,
        record,
        before,
        after,
    );
}

/// A campaign summary is refused exactly when no campaign is stored. It repeats
/// the stored fields; raised and remaining make up the goal, whatever the
/// status; all milestones are released exactly when each index below the count
/// has a record that is `Released`; donations are taken while the campaign runs.
pub proof fn campaign_summary_reads_the_records(
    storage: &CampaignStorage,
    res: Result<CampaignSummary, Error>,
)
    requires
        call_ensures(get_campaign_summary, (storage,), res),
    ensures
        res is Err <==> storage@.campaign is None,
        res matches Err(error) ==> error == Error::NotInitialized,
        res matches Ok(summary) ==> {
            let campaign = storage@.campaign->0;
            &&& summary.creator == campaign.creator
            &&& summary.goal_amount == campaign.goal_amount
            &&& summary.raised_amount == campaign.raised_amount
            &&& summary.end_time == campaign.end_time
            &&& summary.status == campaign.status
            &&& summary.milestone_count == campaign.milestone_count
            &&& 0 <= summary.raised_amount <= summary.goal_amount ==> summary.raised_amount
                + summary.remaining_to_goal == summary.goal_amount
            &&& summary.remaining_to_goal == vstd::math::min(
                vstd::math::max(campaign.goal_amount - campaign.raised_amount, 0),
                i128::MAX as int,
            )
            &&& summary.accepts_donations <==> campaign.status == CampaignStatus::Active
                || campaign.status == CampaignStatus::GoalReached
            &&& summary.milestones_released <= summary.milestone_count
            &&& summary.all_milestones_released <==> summary.milestones_released
                == summary.milestone_count
            &&& summary.all_milestones_released <==> forall|i: u32|
                i < campaign.milestone_count ==> #[trigger] storage@.milestones.contains_key(i)
                    && storage@.milestones[i].status is Released
        },
{
    if let Ok(summary) = res {
        readings::campaign_summary_reads_the_campaign(
            storage@.campaign->0,
            storage@.milestones,
            summary,
        );
    }
}

/// The progress of a campaign summary is the largest number of basis points
/// that the raised amount covers of the goal, and 10 000 once the goal is met.
/// It is 0 without a goal, and when the amounts are not on the same side of
/// zero.
pub proof fn campaign_summary_shows_the_share(
    storage: &CampaignStorage,
    summary: CampaignSummary,
)
    requires
        call_ensures(get_campaign_summary, (storage,), Ok::<CampaignSummary, Error>(summary)),
    ensures
        0 <= summary.progress_bps <= 10_000,
        ({
            let campaign = storage@.campaign->0;
            let raised = vstd::math::abs(campaign.raised_amount as int);
            let goal = vstd::math::abs(campaign.goal_amount as int);
            let same_side = (campaign.raised_amount > 0 && campaign.goal_amount > 0) || (
            campaign.raised_amount < 0 && campaign.goal_amount < 0);
            &&& !same_side ==> summary.progress_bps == 0
            &&& same_side && raised >= goal ==> summary.progress_bps == 10_000
            &&& same_side && raised < goal ==> summary.progress_bps * goal <= raised * 10_000 < (
            summary.progress_bps + 1) * goal
        }),
{
    readings::campaign_summary_brackets_the_progress(
        storage@.campaign->0,
        storage@.milestones,
        summary,
    );
}

/// The two summaries of one storage count the same milestones, and the same
/// ones as released.
pub proof fn both_summaries_count_alike(
    storage: &CampaignStorage,
    of_campaign: CampaignSummary,
    of_milestones: MilestoneSummary,
)
    requires
        call_ensures(get_campaign_summary, (storage,), Ok::<CampaignSummary, Error>(of_campaign)),
        call_ensures(
            get_milestone_summary,
            (storage,),
            Ok::<MilestoneSummary, Error>(of_milestones),
        ),
    ensures
        of_campaign.milestone_count == of_milestones.total,
        of_campaign.milestones_released == of_milestones.released,
{
    laws::summaries_agree(storage@.campaign->0, storage@.milestones, of_campaign, of_milestones);
}

/// Campaigns with the same amounts and the same milestones show the same
/// progress, the same remaining amount and the same released milestones,
/// whatever else is stored of them.
pub proof fn campaign_summary_hangs_on_the_records_only(
    storage: &CampaignStorage,
    other: &CampaignStorage,
    a: CampaignSummary,
    b: CampaignSummary,
)
    requires
        storage@.milestones == other@.milestones,
        storage@.campaign is Some,
        other@.campaign is Some,
        storage@.campaign->0.milestone_count == other@.campaign->0.milestone_count,
        storage@.campaign->0.goal_amount == other@.campaign->0.goal_amount,
        storage@.campaign->0.raised_amount == other@.campaign->0.raised_amount,
        call_ensures(get_campaign_summary, (storage,), Ok::<CampaignSummary, Error>(a)),
        call_ensures(get_campaign_summary, (other,), Ok::<CampaignSummary, Error>(b)),
    ensures
        a.remaining_to_goal == b.remaining_to_goal,
        a.progress_bps == b.progress_bps,
        a.milestones_released == b.milestones_released,
        a.all_milestones_released == b.all_milestones_released,
{
    campaign_summary_reads_the_records(storage, Ok::<CampaignSummary, Error>(a));
    campaign_summary_reads_the_records(other, Ok::<CampaignSummary, Error>(b));
}

/// The balances have one entry for each accepted asset, at its own place: the
/// bytes of its code, and the amount stored for its issuer, or 0 where it has
/// none or nothing is stored. They are refused exactly when no campaign is
/// stored.
pub proof fn balances_read_the_records(
    env: &soroban_sdk::Env,
    storage: &CampaignStorage,
    res: Result<soroban_sdk::Vec<(soroban_sdk::Bytes, i128)>, Error>,
)
    requires
        call_ensures(get_asset_balances, (env, storage), res),
    ensures
        res is Err <==> storage@.campaign is None,
        res matches Err(error) ==> error == Error::NotInitialized,
        res matches Ok(balances) ==> {
            let assets = storage@.campaign->0.accepted_assets@;
            let entries = host::balance_entries(balances);
            &&& entries.len() == assets.len()
            &&& forall|i: int|
                0 <= i < assets.len() ==> {
                    let entry = #[trigger] entries[i];
                    &&& entry.0 == host::string_bytes(assets[i].asset_code)
                    &&& entry.1 == (match assets[i].issuer {
                        None => 0int,
                        Some(issuer) => if storage@.asset_raised.contains_key(issuer.strkey@) {
                            storage@.asset_raised[issuer.strkey@] as int
                        } else {
                            0
                        },
                    })
                }
        },
{
}

/// Balances that are tried for are withheld exactly when there are more assets
/// than a host list holds or the bytes of an asset code are not UTF-8, and
/// otherwise have one entry for each accepted asset, at its own place: the bytes
/// of its code, and the amount stored for its issuer, or 0.
pub proof fn tried_balances_read_the_records(
    env: &soroban_sdk::Env,
    storage: &CampaignStorage,
    res: Result<Option<soroban_sdk::Vec<(soroban_sdk::Bytes, i128)>>, Error>,
)
    requires
        call_ensures(try_get_asset_balances, (env, storage), res),
    ensures
        res is Err <==> storage@.campaign is None,
        res matches Err(error) ==> error == Error::NotInitialized,
        storage@.campaign matches Some(campaign) ==> (res->Ok_0 is Some <==> {
            &&& campaign.accepted_assets@.len() <= u32::MAX
            &&& forall|i: int|
                0 <= i < campaign.accepted_assets@.len() ==> vstd::utf8::valid_utf8(
                    host::string_bytes((#[trigger] campaign.accepted_assets@[i]).asset_code),
                )
        }),
        res matches Ok(Some(balances)) ==> {
            let assets = storage@.campaign->0.accepted_assets@;
            let entries = host::balance_entries(balances);
            &&& entries.len() == assets.len()
            &&& forall|i: int|
                0 <= i < assets.len() ==> {
                    let entry = #[trigger] entries[i];
                    &&& entry.0 == host::string_bytes(assets[i].asset_code)
                    &&& entry.1 == (match assets[i].issuer {
                        None => 0int,
                        Some(issuer) => if storage@.asset_raised.contains_key(issuer.strkey@) {
                            storage@.asset_raised[issuer.strkey@] as int
                        } else {
                            0
                        },
                    })
                }
        },
{
}

/// Once an amount is stored for an issuer, the entry of every accepted asset of
/// that issuer carries exactly that amount, whatever it is, and every other
/// entry stays as it was.
pub proof fn balances_move_with_the_stored_amount(
    env: &soroban_sdk::Env,
    storage: &CampaignStorage,
    later: &CampaignStorage,
    issuer: Address,
    amount: i128,
    before: soroban_sdk::Vec<(soroban_sdk::Bytes, i128)>,
    after: soroban_sdk::Vec<(soroban_sdk::Bytes, i128)>,
)
    requires
        later@.campaign == storage@.campaign,
        later@.asset_raised == storage@.asset_raised.insert(issuer.strkey@, amount),
        call_ensures(
            get_asset_balances,
            (env, storage),
            Ok::<soroban_sdk::Vec<(soroban_sdk::Bytes, i128)>, Error>(before),
        ),
        call_ensures(
            get_asset_balances,
            (env, later),
            Ok::<soroban_sdk::Vec<(soroban_sdk::Bytes, i128)>, Error>(after),
        ),
    ensures
        ({
            let assets = storage@.campaign->0.accepted_assets@;
            let old_entries = host::balance_entries(before);
            let new_entries = host::balance_entries(after);
            &&& new_entries.len() == old_entries.len()
            &&& forall|i: int|
                0 <= i < assets.len() ==> {
                    let entry = #[trigger] new_entries[i];
                    &&& entry.0 == old_entries[i].0
                    &&& assets[i].issuer is Some && assets[i].issuer->0.strkey@ == issuer.strkey@
                        ==> entry.1 == amount
                    &&& !(assets[i].issuer is Some && assets[i].issuer->0.strkey@
                        == issuer.strkey@) ==> entry == old_entries[i]
                }
        }),
{
    let assets = storage@.campaign->0.accepted_assets@;
    let new_entries = host::balance_entries(after);
    let old_entries = host::balance_entries(before);
    assert forall|i: int| 0 <= i < assets.len() implies {
        let entry = #[trigger] new_entries[i];
        &&& entry.0 == old_entries[i].0
        &&& assets[i].issuer is Some && assets[i].issuer->0.strkey@ == issuer.strkey@
            ==> entry.1 == amount
        &&& !(assets[i].issuer is Some && assets[i].issuer->0.strkey@ == issuer.strkey@)
            ==> entry == old_entries[i]
    } by {
        readings::storing_an_amount_moves_its_entries_only(
            assets,
            storage@.asset_raised,
            issuer,
            amount,
            i,
        );
    }
}

/// What is pending on a milestone fills its released amount up to its target,
/// and it is fully released exactly when nothing is pending.
pub proof fn pending_fills_the_target(milestone: &MilestoneData, amount: i128, fully: bool)
    requires
        call_ensures(MilestoneData::pending_release, (milestone,), amount),
        call_ensures(MilestoneData::is_fully_released, (milestone,), fully),
    ensures
        0 <= milestone.released_amount <= milestone.target_amount ==> milestone.released_amount
            + amount == milestone.target_amount,
        amount == vstd::math::min(
            vstd::math::max(milestone.target_amount - milestone.released_amount, 0),
            i128::MAX as int,
        ),
        fully <==> milestone.released_amount >= milestone.target_amount,
        fully <==> amount == 0,
{
}

/// What remains fills the raised amount of a campaign up to its goal, whatever
/// its status, and it takes donations exactly while it runs.
pub proof fn remaining_fills_the_goal(campaign: &CampaignData, amount: i128, open: bool)
    requires
        call_ensures(CampaignData::remaining, (campaign,), amount),
        call_ensures(CampaignData::is_accepting_donations, (campaign,), open),
    ensures
        0 <= campaign.raised_amount <= campaign.goal_amount ==> campaign.raised_amount + amount
            == campaign.goal_amount,
        amount == vstd::math::min(
            vstd::math::max(campaign.goal_amount - campaign.raised_amount, 0),
            i128::MAX as int,
        ),
        open <==> campaign.status == CampaignStatus::Active || campaign.status
            == CampaignStatus::GoalReached,
{
}

/// A sum of amounts is the sum, or the bound that it passes; a shortfall fills
/// the part up to the whole, and is 0 where the part covers it.
pub proof fn sums_and_shortfalls_are_exact(a: i128, b: i128, sum: i128, rest: i128)
    requires
        call_ensures(saturating_sum, (a, b), sum),
        call_ensures(shortfall, (a, b), rest),
    ensures
        sum == vstd::math::max(
            vstd::math::min(a + b, i128::MAX as int),
            i128::MIN as int,
        ),
        rest == vstd::math::min(vstd::math::max(a - b, 0), i128::MAX as int),
{
}

/// Progress is the largest number of basis points that `raised` covers of
/// `goal`, and 10 000 once the goal is met. It is 0 for a zero goal, and when
/// the amounts are not on the same side of zero.
pub proof fn progress_answer_brackets_the_share(raised: i128, goal: i128, bps: u32)
    requires
        call_ensures(progress_bps, (raised, goal), bps),
    ensures
        0 <= bps <= 10_000,
        ({
            let part = vstd::math::abs(raised as int);
            let whole = vstd::math::abs(goal as int);
            let same_side = (raised > 0 && goal > 0) || (raised < 0 && goal < 0);
            &&& !same_side ==> bps == 0
            &&& same_side && part >= whole ==> bps == 10_000
            &&& same_side && part < whole ==> bps * whole <= part * 10_000 < (bps + 1) * whole
        }),
{
    readings::progress_brackets_the_share(raised, goal);
}

/// Two addresses are the same exactly when all characters of their strkeys are.
pub proof fn same_addresses_have_the_same_strkey(a: &Address, b: &Address, same: bool)
    requires
        call_ensures(Address::same, (a, b), same),
    ensures
        same <==> forall|i: int| 0 <= i < 56 ==> #[trigger] a.strkey@[i] == b.strkey@[i],
{
    if forall|i: int| 0 <= i < 56 ==> #[trigger] a.strkey@[i] == b.strkey@[i] {
        assert(a.strkey@ =~= b.strkey@);
    }
}

/// A new storage holds nothing.
pub proof fn new_storage_reads_as_empty(
    storage: &CampaignStorage,
    campaign: Option<&CampaignData>,
    index: u32,
    milestone: Option<MilestoneData>,
    issuer: &Address,
    amount: i128,
)
    requires
        call_ensures(CampaignStorage::new, (), *storage),
        call_ensures(CampaignStorage::get_campaign, (storage,), campaign),
        call_ensures(CampaignStorage::get_milestone, (storage, index), milestone),
        call_ensures(CampaignStorage::get_asset_raised, (storage, issuer), amount),
    ensures
        campaign is None,
        milestone is None,
        amount == 0,
{
}

/// A stored milestone is read back as it was stored, under its index and no
/// other, and the campaign and the amounts raised stay.
pub proof fn stored_milestone_is_read_back(
    storage: &mut CampaignStorage,
    index: u32,
    record: MilestoneData,
    other: u32,
    before: Option<MilestoneData>,
    after: Option<MilestoneData>,
)
    requires
        call_ensures(CampaignStorage::set_milestone, (storage, index, record), ()),
    ensures
        call_ensures(CampaignStorage::get_milestone, (&*old(storage), other), before)
            && call_ensures(CampaignStorage::get_milestone, (&*final(storage), other), after)
            ==> after == (if other == index {
            Some(record)
        } else {
            before
        }),
        final(storage)@.milestones.contains_key(index),
        final(storage)@.milestones[index] == record,
        final(storage)@.milestones.remove(index) == old(storage)@.milestones.remove(index),
        final(storage)@.campaign == old(storage)@.campaign,
        final(storage)@.asset_raised == old(storage)@.asset_raised,
{
    assert(old(storage)@.milestones.insert(index, record).remove(index)
        =~= old(storage)@.milestones.remove(index));
}

/// A stored campaign is read back as it was stored, and the milestones and the
/// amounts raised stay.
pub proof fn stored_campaign_is_read_back(
    storage: &mut CampaignStorage,
    campaign: CampaignData,
    read: Option<&CampaignData>,
)
    requires
        call_ensures(CampaignStorage::set_campaign, (storage, campaign), ()),
    ensures
        call_ensures(CampaignStorage::get_campaign, (&*final(storage),), read) ==> read == Some(
            &campaign,
        ),
        final(storage)@.campaign == Some(campaign),
        final(storage)@.milestones == old(storage)@.milestones,
        final(storage)@.asset_raised == old(storage)@.asset_raised,
{
}

/// A stored amount is read back as it was stored, for its issuer and no other,
/// and the campaign and the milestones stay.
pub proof fn stored_amount_is_read_back(
    storage: &mut CampaignStorage,
    issuer: Address,
    amount: i128,
    other: &Address,
    before: i128,
    after: i128,
)
    requires
        call_ensures(CampaignStorage::set_asset_raised, (storage, issuer, amount), ()),
    ensures
        call_ensures(CampaignStorage::get_asset_raised, (&*old(storage), other), before)
            && call_ensures(CampaignStorage::get_asset_raised, (&*final(storage), other), after)
            ==> after == (if other.strkey@ == issuer.strkey@ {
            amount
        } else {
            before
        }),
        final(storage)@.asset_raised.contains_key(issuer.strkey@),
        final(storage)@.asset_raised[issuer.strkey@] == amount,
        final(storage)@.asset_raised.remove(issuer.strkey@) == old(storage)@.asset_raised.remove(
            issuer.strkey@,
        ),
        final(storage)@.campaign == old(storage)@.campaign,
        final(storage)@.milestones == old(storage)@.milestones,
{
    assert(old(storage)@.asset_raised.insert(issuer.strkey@, amount).remove(issuer.strkey@)
        =~= old(storage)@.asset_raised.remove(issuer.strkey@));
}

/// After an amount is stored for an issuer, the balances carry exactly that
/// amount at every accepted asset of that issuer, and are as before at every
/// other.
pub proof fn stored_amount_shows_in_the_balances(
    env: &soroban_sdk::Env,
    storage: &mut CampaignStorage,
    issuer: Address,
    amount: i128,
    before: soroban_sdk::Vec<(soroban_sdk::Bytes, i128)>,
    after: soroban_sdk::Vec<(soroban_sdk::Bytes, i128)>,
    place: int,
)
    requires
        call_ensures(CampaignStorage::set_asset_raised, (storage, issuer, amount), ()),
        storage@.campaign is Some,
        0 <= place < storage@.campaign->0.accepted_assets@.len(),
    ensures
        call_ensures(
            get_asset_balances,
            (env, &*old(storage)),
            Ok::<soroban_sdk::Vec<(soroban_sdk::Bytes, i128)>, Error>(before),
        ) && call_ensures(
            get_asset_balances,
            (env, &*final(storage)),
            Ok::<soroban_sdk::Vec<(soroban_sdk::Bytes, i128)>, Error>(after),
        ) ==> {
            let asset = old(storage)@.campaign->0.accepted_assets@[place];
            &&& host::balance_entries(after).len() == host::balance_entries(before).len()
            &&& if asset.issuer is Some && asset.issuer->0.strkey@ == issuer.strkey@ {
                host::balance_entries(after)[place] == (
                    host::string_bytes(asset.asset_code),
                    amount,
                )
            } else {
                host::balance_entries(after)[place] == host::balance_entries(before)[place]
            }
        },
{
    readings::storing_an_amount_moves_its_entries_only(
        storage@.campaign->0.accepted_assets@,
        storage@.asset_raised,
        issuer,
        amount,
        place,
    );
}

} // verus!
