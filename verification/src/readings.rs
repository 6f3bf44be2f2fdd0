//! What each view says in terms of the fields of the stored records, and how
//! it changes when a record does.
use vstd::prelude::*;

use crate::{amounts, host, laws, milestones, views};
use crate::milestones::Milestones;
use crate::types::{Address, CampaignData, CampaignStatus, MilestoneData, MilestoneStatus, StellarAsset};
use crate::views::{CampaignSummary, MilestoneSummary, MilestoneView};

verus! {

/// A milestone has the status that the status field of its stored record holds,
/// and no other.
pub proof fn status_is_the_stored_field(
    milestones: Milestones,
    index: u32,
    status: MilestoneStatus,
)
    ensures
        milestones::has_status(milestones, index, status) <==> milestones.contains_key(index)
            && milestones[index].status == status,
{
}

/// An index is known exactly when it is below the milestone count and a record
/// is stored under it, and all are stored exactly when each index below the
/// count is known.
pub proof fn known_means_counted_and_stored(
    campaign: CampaignData,
    milestones: Milestones,
    index: u32,
)
    ensures
        views::is_known(campaign, milestones, index) <==> index < campaign.milestone_count
            && milestones.contains_key(index),
        milestones::all_stored(milestones, campaign.milestone_count) <==> forall|i: u32|
            i < campaign.milestone_count ==> #[trigger] milestones.contains_key(i),
{
}

/// The next milestone is the first record, by index, whose status field is
/// `Unlocked`; there is none exactly when no record below the count is. A
/// record that is `Locked` or `Released` is never next.
pub proof fn next_is_the_first_unlocked_record(
    milestones: Milestones,
    count: u32,
    next: Option<u32>,
)
    requires
        milestones::names_next(milestones, count, next),
    ensures
        match next {
            Some(index) => {
                &&& index < count
                &&& milestones.contains_key(index)
                &&& milestones[index].status is Unlocked
                &&& forall|i: u32|
                    i < index && #[trigger] milestones.contains_key(i) ==> !(
                    milestones[i].status is Unlocked)
            },
            None => forall|i: u32|
                i < count && #[trigger] milestones.contains_key(i) ==> !(
                milestones[i].status is Unlocked),
        },
{
    if let Some(index) = next {
        assert forall|i: u32| i < index && #[trigger] milestones.contains_key(i) implies !(
        milestones[i].status is Unlocked) by {
            assert(!milestones::has_status(milestones, i, MilestoneStatus::Unlocked));
        }
    } else {
        assert forall|i: u32| i < count && #[trigger] milestones.contains_key(i) implies !(
        milestones[i].status is Unlocked) by {
            assert(!milestones::has_status(milestones, i, MilestoneStatus::Unlocked));
        }
    }
}

/// A milestone is releasable exactly when the campaign is not cancelled, its
/// record is stored below the count with the status field `Unlocked`, and each
/// index below it has a record with the status field `Released`.
pub proof fn releasable_reads_the_status_fields(
    campaign: CampaignData,
    milestones: Milestones,
    index: u32,
)
    ensures
        views::releasable(campaign, milestones, index) <==> {
            &&& campaign.status != CampaignStatus::Cancelled
            &&& index < campaign.milestone_count
            &&& milestones.contains_key(index)
            &&& milestones[index].status is Unlocked
            &&& forall|i: u32|
                i < index ==> #[trigger] milestones.contains_key(i)
                    && milestones[i].status is Released
        },
{
    if views::releasable(campaign, milestones, index) {
        assert forall|i: u32| i < index implies #[trigger] milestones.contains_key(i)
            && milestones[i].status is Released by {
            assert(milestones::has_status(milestones, i, MilestoneStatus::Released));
        }
    }
}

/// A milestone whose record is `Locked` is neither releasable nor next,
/// whatever its amounts and the other milestones are.
pub proof fn locked_is_neither_releasable_nor_next(
    campaign: CampaignData,
    milestones: Milestones,
    index: u32,
    next: Option<u32>,
)
    requires
        milestones.contains_key(index),
        milestones[index].status is Locked,
        milestones::names_next(milestones, campaign.milestone_count, next),
    ensures
        !views::releasable(campaign, milestones, index),
        next != Some(index),
{
}

/// Whether a milestone is releasable does not hang on amounts or dates: two
/// campaigns that agree on being cancelled and on the count, with records that
/// agree on their status fields, give the same answer.
pub proof fn releasable_hangs_on_statuses_only(
    campaign: CampaignData,
    milestones: Milestones,
    other_campaign: CampaignData,
    other_milestones: Milestones,
    index: u32,
)
    requires
        campaign.status is Cancelled <==> other_campaign.status is Cancelled,
        campaign.milestone_count == other_campaign.milestone_count,
        forall|i: u32|
            #![trigger milestones.contains_key(i)]
            #![trigger other_milestones.contains_key(i)]
            i <= index ==> {
                &&& milestones.contains_key(i) <==> other_milestones.contains_key(i)
                &&& milestones.contains_key(i) ==> milestones[i].status
                    == other_milestones[i].status
            },
    ensures
        views::releasable(campaign, milestones, index) <==> views::releasable(
            other_campaign,
            other_milestones,
            index,
        ),
{
    releasable_reads_the_status_fields(campaign, milestones, index);
    releasable_reads_the_status_fields(other_campaign, other_milestones, index);
}

/// A view holds the stored record as it is. What is pending is the part of the
/// target that is not released, nothing is pending exactly when the target is
/// reached, and the flag of the next milestone is set exactly on the first
/// record whose status field is `Unlocked`.
pub proof fn view_reads_the_record(milestones: Milestones, index: u32, view: MilestoneView)
    requires
        view.shows(milestones, index),
    ensures
        milestones.contains_key(index),
        view.data == milestones[index],
        0 <= view.data.released_amount <= view.data.target_amount ==> view.data.released_amount
            + view.pending_release == view.data.target_amount,
        view.pending_release == vstd::math::min(
            vstd::math::max(view.data.target_amount - view.data.released_amount, 0),
            i128::MAX as int,
        ),
        view.is_fully_released <==> view.data.released_amount >= view.data.target_amount,
        view.pending_release == 0 <==> view.is_fully_released,
        view.is_next_pending <==> {
            &&& view.data.status is Unlocked
            &&& forall|i: u32|
                i < index && #[trigger] milestones.contains_key(i) ==> !(
                milestones[i].status is Unlocked)
        },
{
    if view.is_next_pending {
        assert forall|i: u32| i < index && #[trigger] milestones.contains_key(i) implies !(
        milestones[i].status is Unlocked) by {
            assert(!milestones::has_status(milestones, i, MilestoneStatus::Unlocked));
        }
    }
}

/// What is pending on a milestone and whether it is fully released follow from
/// its target and its released amount alone.
pub proof fn pending_reads_the_amounts(milestone: MilestoneData)
    ensures
        milestone.pending() == vstd::math::min(
            vstd::math::max(milestone.target_amount - milestone.released_amount, 0),
            i128::MAX as int,
        ),
        milestone.fully_released() <==> milestone.released_amount >= milestone.target_amount,
{
}

/// What a campaign lacks is the part of the goal that is not raised, whatever
/// its status, and it takes donations exactly while it runs.
pub proof fn missing_reads_the_amounts(campaign: CampaignData)
    ensures
        0 <= campaign.raised_amount <= campaign.goal_amount ==> campaign.raised_amount
            + campaign.missing() == campaign.goal_amount,
        campaign.missing() == vstd::math::min(
            vstd::math::max(campaign.goal_amount - campaign.raised_amount, 0),
            i128::MAX as int,
        ),
        campaign.takes_donations() <==> campaign.status == CampaignStatus::Active
            || campaign.status == CampaignStatus::GoalReached,
{
}

/// A campaign summary repeats the stored fields. Raised and remaining make up
/// the goal, whatever the status of the campaign, and nothing remains once the
/// goal is met. All milestones are released exactly when each index below the
/// count has a record with the status field `Released`.
pub proof fn campaign_summary_reads_the_campaign(
    campaign: CampaignData,
    milestones: Milestones,
    summary: CampaignSummary,
)
    requires
        summary.sums_up(campaign, milestones),
    ensures
        summary.creator == campaign.creator,
        summary.goal_amount == campaign.goal_amount,
        summary.raised_amount == campaign.raised_amount,
        summary.end_time == campaign.end_time,
        summary.status == campaign.status,
        summary.milestone_count == campaign.milestone_count,
        0 <= summary.raised_amount <= summary.goal_amount ==> summary.raised_amount
            + summary.remaining_to_goal == summary.goal_amount,
        summary.remaining_to_goal == vstd::math::min(
            vstd::math::max(campaign.goal_amount - campaign.raised_amount, 0),
            i128::MAX as int,
        ),
        summary.accepts_donations <==> campaign.status == CampaignStatus::Active
            || campaign.status == CampaignStatus::GoalReached,
        summary.milestones_released <= summary.milestone_count,
        summary.all_milestones_released <==> summary.milestones_released
            == summary.milestone_count,
        summary.all_milestones_released <==> forall|i: u32|
            i < campaign.milestone_count ==> #[trigger] milestones.contains_key(i)
                && milestones[i].status is Released,
{
    let count = campaign.milestone_count;
    laws::full_count_means_every_milestone(milestones, count, MilestoneStatus::Released);
    if summary.all_milestones_released {
        assert forall|i: u32| i < count implies #[trigger] milestones.contains_key(i)
            && milestones[i].status is Released by {
            assert(milestones::has_status(milestones, i, MilestoneStatus::Released));
        }
    }
}

/// The progress of a campaign summary is the largest number of basis points
/// that the raised amount covers of the goal, and 10 000 once the goal is met.
/// It is 0 without a goal, and when the amounts are not on the same side of
/// zero.
pub proof fn campaign_summary_brackets_the_progress(
    campaign: CampaignData,
    milestones: Milestones,
    summary: CampaignSummary,
)
    requires
        summary.sums_up(campaign, milestones),
    ensures
        0 <= summary.progress_bps <= 10_000,
        ({
            let raised = vstd::math::abs(campaign.raised_amount as int);
            let goal = vstd::math::abs(campaign.goal_amount as int);
            let same_side = (campaign.raised_amount > 0 && campaign.goal_amount > 0) || (
            campaign.raised_amount < 0 && campaign.goal_amount < 0);
            &&& !same_side ==> summary.progress_bps == 0
            &&& same_side && raised >= goal ==> summary.progress_bps == 10_000
            &&& same_side && raised < goal ==> summary.progress_bps * goal <= raised * 10_000 < (
            summary.progress_bps + 1) * goal
        }),
{
    progress_brackets_the_share(campaign.raised_amount, campaign.goal_amount);
}

/// Progress is the largest number of basis points that `raised` covers of
/// `goal`, and 10 000 once the goal is met. It is 0 for a zero goal, and when
/// the amounts are not on the same side of zero.
pub proof fn progress_brackets_the_share(raised: i128, goal: i128)
    ensures
        0 <= amounts::progress(raised, goal) <= 10_000,
        ({
            let bps = amounts::progress(raised, goal);
            let part = vstd::math::abs(raised as int);
            let whole = vstd::math::abs(goal as int);
            let same_side = (raised > 0 && goal > 0) || (raised < 0 && goal < 0);
            &&& !same_side ==> bps == 0
            &&& same_side && part >= whole ==> bps == 10_000
            &&& same_side && part < whole ==> bps * whole <= part * 10_000 < (bps + 1) * whole
        }),
{
    let part = vstd::math::abs(raised as int) as int;
    let whole = vstd::math::abs(goal as int) as int;
    let quotient = (part * 10_000) / whole;
    if goal != 0 {
        amounts::lemma_progress_by_magnitude(raised, goal);
        assert(quotient * whole <= part * 10_000 < (quotient + 1) * whole) by (nonlinear_arith)
            requires
                whole > 0,
                part >= 0,
                quotient == (part * 10_000) / whole,
        ;
        assert(part < whole ==> quotient < 10_000) by (nonlinear_arith)
            requires
                whole > 0,
                part >= 0,
                quotient == (part * 10_000) / whole,
        ;
        assert(part >= whole ==> quotient >= 10_000) by (nonlinear_arith)
            requires
                whole > 0,
                part >= 0,
                quotient == (part * 10_000) / whole,
        ;
        assert(quotient >= 0) by (nonlinear_arith)
            requires
                whole > 0,
                part >= 0,
                quotient == (part * 10_000) / whole,
        ;
    }
}

/// A sum of amounts is the sum, or the bound that it passes.
pub proof fn sum_stops_at_the_bounds(a: i128, b: i128)
    ensures
        i128::MIN <= a + b <= i128::MAX ==> amounts::saturated_sum(a as int, b as int) == a + b,
        a + b > i128::MAX ==> amounts::saturated_sum(a as int, b as int) == i128::MAX,
        a + b < i128::MIN ==> amounts::saturated_sum(a as int, b as int) == i128::MIN,
{
}

/// A shortfall fills the part up to the whole, and is 0 where the part covers
/// it.
pub proof fn shortfall_fills_the_whole(whole: i128, part: i128)
    ensures
        whole <= part ==> amounts::shortfall_of(whole as int, part as int) == 0,
        part < whole && whole - part <= i128::MAX ==> part + amounts::shortfall_of(
            whole as int,
            part as int,
        ) == whole,
        whole - part > i128::MAX ==> amounts::shortfall_of(whole as int, part as int) == i128::MAX,
{
}

/// A summary of no milestones counts nothing.
pub proof fn summary_of_nothing(milestones: Milestones, summary: MilestoneSummary)
    requires
        summary.sums_up(milestones, 0),
    ensures
        summary.total == 0,
        summary.locked == 0,
        summary.unlocked == 0,
        summary.released == 0,
        summary.total_released_amount == 0,
        summary.total_pending_amount == 0,
        summary.next_pending_index is None,
{
}

/// Counting one milestone more adds one to the count of its status. If its
/// record is `Released`, its released amount joins the released total; if it is
/// stored with any other status, the part of its target that is not released
/// joins the pending total; both stop at the bounds of an amount. It becomes
/// the next one if it is the first that is `Unlocked`. Where no record is
/// stored, only the total moves.
pub proof fn summary_takes_in_one_more(
    milestones: Milestones,
    count: u32,
    before: MilestoneSummary,
    after: MilestoneSummary,
)
    requires
        count < u32::MAX,
        before.sums_up(milestones, count),
        after.sums_up(milestones, (count + 1) as u32),
    ensures
        ({
            let stored = milestones.contains_key(count);
            let record = milestones[count];
            let locked = stored && record.status is Locked;
            let unlocked = stored && record.status is Unlocked;
            let released = stored && record.status is Released;
            &&& after.total == before.total + 1
            &&& after.locked == before.locked + (if locked {
                1int
            } else {
                0
            })
            &&& after.unlocked == before.unlocked + (if unlocked {
                1int
            } else {
                0
            })
            &&& after.released == before.released + (if released {
                1int
            } else {
                0
            })
            &&& after.total_released_amount == (if released {
                vstd::math::max(
                    vstd::math::min(
                        before.total_released_amount + record.released_amount,
                        i128::MAX as int,
                    ),
                    i128::MIN as int,
                )
            } else {
                before.total_released_amount as int
            })
            &&& after.total_pending_amount == (if locked || unlocked {
                vstd::math::min(
                    before.total_pending_amount + vstd::math::max(
                        record.target_amount - record.released_amount,
                        0,
                    ),
                    i128::MAX as int,
                )
            } else {
                before.total_pending_amount as int
            })
            &&& after.next_pending_index == (if before.next_pending_index is None && unlocked {
                Some(count)
            } else {
                before.next_pending_index
            })
        }),
{
    let more = (count + 1) as u32;
    assert((more - 1) as u32 == count);
    laws::pending_total_is_the_sum(milestones, count);
    if let Some(next) = before.next_pending_index {
        laws::next_answers_agree(milestones, more, Some(next), after.next_pending_index);
    } else if milestones::has_status(milestones, count, MilestoneStatus::Unlocked) {
        assert(milestones::is_next(milestones, count));
        laws::next_answers_agree(milestones, more, Some(count), after.next_pending_index);
    } else {
        assert forall|i: u32| i < more implies !#[trigger] milestones::has_status(
            milestones,
            i,
            MilestoneStatus::Unlocked,
        ) by {
            assert(i == count || i < count);
        }
        laws::next_answers_agree(milestones, more, None, after.next_pending_index);
    }
}

/// The released milestones of a campaign summary are counted one by one: none
/// for a count of zero, and one more milestone adds one exactly when its record
/// has the status field `Released`.
pub proof fn campaign_summary_counts_one_by_one(
    campaign: CampaignData,
    longer: CampaignData,
    milestones: Milestones,
    before: CampaignSummary,
    after: CampaignSummary,
)
    requires
        longer.milestone_count == campaign.milestone_count + 1,
        before.sums_up(campaign, milestones),
        after.sums_up(longer, milestones),
    ensures
        campaign.milestone_count == 0 ==> before.milestones_released == 0,
        after.milestones_released == before.milestones_released + (if milestones.contains_key(
            campaign.milestone_count,
        ) && milestones[campaign.milestone_count].status is Released {
            1int
        } else {
            0
        }),
{
    assert((longer.milestone_count - 1) as u32 == campaign.milestone_count);
}

/// Storing a record under an empty index moves the counts and the sums over
/// every range that holds it.
proof fn lemma_store_one(milestones: Milestones, index: u32, record: MilestoneData, count: u32)
    requires
        !milestones.contains_key(index),
    ensures
        ({
            let stored = milestones.insert(index, record);
            let counted = index < count;
            &&& forall|status: MilestoneStatus|
                #[trigger] milestones::count_with_status(stored, count, status)
                    == milestones::count_with_status(milestones, count, status) + (if counted
                    && record.status == status {
                    1int
                } else {
                    0
                })
            &&& laws::released_sum(stored, count) == laws::released_sum(milestones, count) + (
            if counted && record.status is Released {
                record.released_amount as int
            } else {
                0
            })
            &&& laws::pending_sum(stored, count) == laws::pending_sum(milestones, count) + (
            if counted && !(record.status is Released) {
                record.pending()
            } else {
                0
            })
        }),
    decreases count,
{
    if count > 0 {
        let last = (count - 1) as u32;
        let stored = milestones.insert(index, record);
        lemma_store_one(milestones, index, record, last);
        assert forall|status: MilestoneStatus|
            #[trigger] milestones::count_with_status(stored, count, status)
                == milestones::count_with_status(milestones, count, status) + (if index < count
                && record.status == status {
                1int
            } else {
                0
            }) by {
            assert(milestones::count_with_status(stored, last, status)
                == milestones::count_with_status(milestones, last, status) + (if index < last
                && record.status == status {
                1int
            } else {
                0
            }));
        }
    }
}

/// Storing a record under an empty index of the campaign adds one to the count
/// of its status, whatever the other milestones are. Unless it is `Released`,
/// it raises the pending total by the part of its target that is not released;
/// if it is, and no released amount is negative, it raises the released total
/// by its released amount; both stop at the largest amount. It becomes the next
/// one if it is `Unlocked` and comes before the one that was. A record stored
/// past the count changes nothing.
pub proof fn storing_a_milestone_moves_the_summary(
    milestones: Milestones,
    count: u32,
    index: u32,
    record: MilestoneData,
    before: MilestoneSummary,
    after: MilestoneSummary,
)
    requires
        !milestones.contains_key(index),
        before.sums_up(milestones, count),
        after.sums_up(milestones.insert(index, record), count),
    ensures
        index >= count ==> after == before,
        index < count ==> {
            &&& after.total == before.total
            &&& after.locked == before.locked + (if record.status is Locked {
                1int
            } else {
                0
            })
            &&& after.unlocked == before.unlocked + (if record.status is Unlocked {
                1int
            } else {
                0
            })
            &&& after.released == before.released + (if record.status is Released {
                1int
            } else {
                0
            })
            &&& after.total_pending_amount == (if record.status is Released {
                before.total_pending_amount as int
            } else {
                vstd::math::min(
                    before.total_pending_amount + vstd::math::max(
                        record.target_amount - record.released_amount,
                        0,
                    ),
                    i128::MAX as int,
                )
            })
            &&& !(record.status is Released) ==> after.total_released_amount
                == before.total_released_amount
            &&& record.status is Released && record.released_amount >= 0 && (forall|i: u32|
                i < count && #[trigger] milestones.contains_key(i)
                    && milestones[i].status is Released ==> milestones[i].released_amount >= 0)
                ==> after.total_released_amount == vstd::math::min(
                before.total_released_amount + record.released_amount,
                i128::MAX as int,
            )
            &&& after.next_pending_index == (if record.status is Unlocked && (
            before.next_pending_index is None || index < before.next_pending_index->0) {
                Some(index)
            } else {
                before.next_pending_index
            })
        },
{
    let stored = milestones.insert(index, record);
    lemma_store_one(milestones, index, record, count);
    laws::pending_total_is_the_sum(milestones, count);
    laws::pending_total_is_the_sum(stored, count);
    lemma_other_records_keep_the_released_total(milestones, index, record, count);
    if (record.status is Released ==> record.released_amount >= 0) && (forall|i: u32|
        i < count && #[trigger] milestones.contains_key(i) && milestones[i].status is Released
            ==> milestones[i].released_amount >= 0) {
        laws::released_total_is_the_sum(milestones, count);
        laws::released_total_is_the_sum(stored, count);
    }
    lemma_next_after_storing(
        milestones,
        count,
        index,
        record,
        before.next_pending_index,
        after.next_pending_index,
    );
}

/// A record that is not `Released`, or lies past the count, leaves the released
/// total alone.
proof fn lemma_other_records_keep_the_released_total(
    milestones: Milestones,
    index: u32,
    record: MilestoneData,
    count: u32,
)
    requires
        !milestones.contains_key(index),
    ensures
        index >= count || !(record.status is Released) ==> milestones::released_total(
            milestones.insert(index, record),
            count,
        ) == milestones::released_total(milestones, count),
    decreases count,
{
    if count > 0 {
        lemma_other_records_keep_the_released_total(
            milestones,
            index,
            record,
            (count - 1) as u32,
        );
    }
}

/// Where the next milestone moves when a record is stored under an empty index.
proof fn lemma_next_after_storing(
    milestones: Milestones,
    count: u32,
    index: u32,
    record: MilestoneData,
    before: Option<u32>,
    after: Option<u32>,
)
    requires
        !milestones.contains_key(index),
        milestones::names_next(milestones, count, before),
        milestones::names_next(milestones.insert(index, record), count, after),
    ensures
        after == (if index < count && record.status is Unlocked && (before is None || index
            < before->0) {
            Some(index)
        } else {
            before
        }),
{
    let stored = milestones.insert(index, record);
    let expected = if index < count && record.status is Unlocked && (before is None || index
        < before->0) {
        Some(index)
    } else {
        before
    };
    let bound = match expected {
        Some(next) => next,
        None => count,
    };
    assert forall|i: u32| i < bound implies !#[trigger] milestones::has_status(
        stored,
        i,
        MilestoneStatus::Unlocked,
    ) by {
        assert(!milestones::has_status(milestones, i, MilestoneStatus::Unlocked));
    }
    assert(milestones::names_next(stored, count, expected));
    laws::next_answers_agree(stored, count, expected, after);
}

/// Each accepted asset has one entry, at its own place: the bytes of its code,
/// and the amount stored for its issuer. An asset without an issuer, or with
/// one that nothing is stored for, has 0.
pub proof fn balances_read_the_stored_amounts(
    assets: Seq<StellarAsset>,
    asset_raised: Map<Seq<u8>, i128>,
    place: int,
)
    requires
        0 <= place < assets.len(),
    ensures
        ({
            let entries = views::balances_of(assets, asset_raised);
            let asset = assets[place];
            &&& entries.len() == assets.len()
            &&& entries[place].0 == host::string_bytes(asset.asset_code)
            &&& asset.issuer is None ==> entries[place].1 == 0
            &&& asset.issuer matches Some(issuer) ==> {
                &&& asset_raised.contains_key(issuer.strkey@) ==> entries[place].1
                    == asset_raised[issuer.strkey@]
                &&& !asset_raised.contains_key(issuer.strkey@) ==> entries[place].1 == 0
            }
        }),
{
}

/// Storing an amount for an issuer puts exactly that amount, whatever it is,
/// into the entry of every accepted asset of that issuer, and leaves every
/// other entry as it was.
pub proof fn storing_an_amount_moves_its_entries_only(
    assets: Seq<StellarAsset>,
    asset_raised: Map<Seq<u8>, i128>,
    issuer: Address,
    amount: i128,
    place: int,
)
    requires
        0 <= place < assets.len(),
    ensures
        ({
            let before = views::balances_of(assets, asset_raised);
            let after = views::balances_of(assets, asset_raised.insert(issuer.strkey@, amount));
            let is_of_issuer = assets[place].issuer is Some && assets[place].issuer->0.strkey@
                == issuer.strkey@;
            &&& after.len() == before.len()
            &&& after[place].0 == before[place].0
            &&& is_of_issuer ==> after[place].1 == amount
            &&& !is_of_issuer ==> after[place] == before[place]
        }),
{
}

/// The entry of an asset does not hang on the other assets or on its place.
pub proof fn entry_hangs_on_its_asset_only(
    assets: Seq<StellarAsset>,
    place: int,
    other_assets: Seq<StellarAsset>,
    other_place: int,
    asset_raised: Map<Seq<u8>, i128>,
)
    requires
        0 <= place < assets.len(),
        0 <= other_place < other_assets.len(),
        assets[place] == other_assets[other_place],
    ensures
        views::balances_of(assets, asset_raised)[place] == views::balances_of(
            other_assets,
            asset_raised,
        )[other_place],
{
}

/// The balances can be given exactly when there are no more assets than a host
/// list holds and the bytes of each asset code are UTF-8.
pub proof fn presentable_reads_the_codes(assets: Seq<StellarAsset>)
    ensures
        views::presentable(assets) <==> {
            &&& assets.len() <= u32::MAX
            &&& forall|i: int|
                0 <= i < assets.len() ==> vstd::utf8::valid_utf8(
                    host::string_bytes((#[trigger] assets[i]).asset_code),
                )
        },
{
}

} // verus!
