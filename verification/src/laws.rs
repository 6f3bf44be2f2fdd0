//! What holds of the views together, for every campaign and every state of its
//! milestones.
use vstd::prelude::*;

use crate::{amounts, milestones, views};
use crate::milestones::Milestones;
use crate::types::{CampaignData, MilestoneData, MilestoneStatus};
use crate::views::{CampaignSummary, MilestoneSummary, MilestoneView};

verus! {

/// At most one milestone is the next one to be released.
pub proof fn next_is_unique(milestones: Milestones, i: u32, j: u32)
    requires
        milestones::is_next(milestones, i),
        milestones::is_next(milestones, j),
    ensures
        i == j,
{
    if i < j {
        assert(!milestones::has_status(milestones, i, MilestoneStatus::Unlocked));
    } else if j < i {
        assert(!milestones::has_status(milestones, j, MilestoneStatus::Unlocked));
    }
}

/// Two answers to which milestone is next are the same answer, so the index in
/// a milestone summary is the one that a scan for the next milestone finds.
pub proof fn next_answers_agree(
    milestones: Milestones,
    count: u32,
    a: Option<u32>,
    b: Option<u32>,
)
    requires
        milestones::names_next(milestones, count, a),
        milestones::names_next(milestones, count, b),
    ensures
        a == b,
{
    if let Some(i) = a {
        if let Some(j) = b {
            next_is_unique(milestones, i, j);
        } else {
            assert(!milestones::has_status(milestones, i, MilestoneStatus::Unlocked));
        }
    } else if let Some(j) = b {
        assert(!milestones::has_status(milestones, j, MilestoneStatus::Unlocked));
    }
}

/// A view carries the next-pending flag exactly when its index is the one that
/// the milestone summary names.
pub proof fn flag_marks_the_named_index(
    milestones: Milestones,
    count: u32,
    summary: MilestoneSummary,
    index: u32,
    view: MilestoneView,
)
    requires
        summary.sums_up(milestones, count),
        index < count,
        view.shows(milestones, index),
    ensures
        view.is_next_pending <==> summary.next_pending_index == Some(index),
{
    if view.is_next_pending {
        next_answers_agree(milestones, count, Some(index), summary.next_pending_index);
    }
}

/// The view of one milestone is the same whether it is asked for alone or
/// taken from the list of all views.
pub proof fn views_of_one_milestone_agree(
    milestones: Milestones,
    index: u32,
    a: MilestoneView,
    b: MilestoneView,
)
    requires
        a.shows(milestones, index),
        b.shows(milestones, index),
    ensures
        a == b,
{
}

/// No more milestones are counted than there are, and all are counted exactly
/// when each of them is stored.
pub proof fn counts_add_up(milestones: Milestones, count: u32)
    ensures
        ({
            let sum = milestones::count_with_status(milestones, count, MilestoneStatus::Locked)
                + milestones::count_with_status(milestones, count, MilestoneStatus::Unlocked)
                + milestones::count_with_status(milestones, count, MilestoneStatus::Released);
            &&& sum <= count
            &&& sum == count <==> milestones::all_stored(milestones, count)
        }),
    decreases count,
{
    if count > 0 {
        let last = (count - 1) as u32;
        counts_add_up(milestones, last);
        if milestones::all_stored(milestones, count) {
            assert(milestones.contains_key(last));
            assert(milestones::all_stored(milestones, last));
        }
        if milestones.contains_key(last) && milestones::all_stored(milestones, last) {
            assert(milestones::all_stored(milestones, count));
        }
    }
}

/// No status is counted more often than there are milestones, and as often
/// exactly when each milestone is stored with that status.
pub proof fn full_count_means_every_milestone(
    milestones: Milestones,
    count: u32,
    status: MilestoneStatus,
)
    ensures
        milestones::count_with_status(milestones, count, status) <= count,
        milestones::count_with_status(milestones, count, status) == count <==> forall|i: u32|
            i < count ==> #[trigger] milestones::has_status(milestones, i, status),
    decreases count,
{
    if count > 0 {
        let last = (count - 1) as u32;
        full_count_means_every_milestone(milestones, last, status);
        if milestones::count_with_status(milestones, count, status) == count {
            assert forall|i: u32| i < count implies #[trigger] milestones::has_status(
                milestones,
                i,
                status,
            ) by {
                assert(i == last || i < last);
            }
        } else if milestones::has_status(milestones, last, status) {
            let missing = choose|i: u32|
                i < last && !#[trigger] milestones::has_status(milestones, i, status);
            assert(!milestones::has_status(milestones, missing, status));
        }
    }
}

/// A status is counted not at all exactly when no stored milestone has it.
pub proof fn zero_count_means_no_milestone(
    milestones: Milestones,
    count: u32,
    status: MilestoneStatus,
)
    ensures
        milestones::count_with_status(milestones, count, status) == 0 <==> forall|i: u32|
            i < count ==> !#[trigger] milestones::has_status(milestones, i, status),
    decreases count,
{
    if count > 0 {
        let last = (count - 1) as u32;
        zero_count_means_no_milestone(milestones, last, status);
        if milestones::count_with_status(milestones, count, status) == 0 {
            assert forall|i: u32| i < count implies !#[trigger] milestones::has_status(
                milestones,
                i,
                status,
            ) by {
                assert(i == last || i < last);
            }
        } else if !milestones::has_status(milestones, last, status) {
            let witness = choose|i: u32|
                i < last && #[trigger] milestones::has_status(milestones, i, status);
            assert(milestones::has_status(milestones, witness, status));
        }
    }
}

/// A milestone summary names a next milestone exactly when it counts one that
/// is `Unlocked`.
pub proof fn unlocked_means_one_is_next(
    milestones: Milestones,
    count: u32,
    summary: MilestoneSummary,
)
    requires
        summary.sums_up(milestones, count),
    ensures
        summary.next_pending_index is Some <==> summary.unlocked > 0,
{
    zero_count_means_no_milestone(milestones, count, MilestoneStatus::Unlocked);
    if let Some(next) = summary.next_pending_index {
        assert(milestones::has_status(milestones, next, MilestoneStatus::Unlocked));
    }
}

/// The two summaries agree on the milestones, and `all_milestones_released`
/// says that each one is stored and `Released`. Then nothing is locked,
/// unlocked, pending or next.
pub proof fn summaries_agree(
    campaign: CampaignData,
    milestones: Milestones,
    of_campaign: CampaignSummary,
    of_milestones: MilestoneSummary,
)
    requires
        of_campaign.sums_up(campaign, milestones),
        of_milestones.sums_up(milestones, campaign.milestone_count),
    ensures
        of_campaign.milestone_count == of_milestones.total,
        of_campaign.milestones_released == of_milestones.released,
        of_campaign.all_milestones_released <==> milestones::prior_released(
            milestones,
            campaign.milestone_count,
        ),
        of_campaign.all_milestones_released ==> {
            &&& of_milestones.locked == 0
            &&& of_milestones.unlocked == 0
            &&& of_milestones.total_pending_amount == 0
            &&& of_milestones.next_pending_index is None
        },
{
    let count = campaign.milestone_count;
    full_count_means_every_milestone(milestones, count, MilestoneStatus::Released);
    if of_campaign.all_milestones_released {
        counts_add_up(milestones, count);
        lemma_released_leave_nothing_pending(milestones, count);
        if let Some(next) = of_milestones.next_pending_index {
            assert(milestones::has_status(milestones, next, MilestoneStatus::Released));
        }
    }
}

proof fn lemma_released_leave_nothing_pending(milestones: Milestones, count: u32)
    requires
        milestones::prior_released(milestones, count),
    ensures
        milestones::pending_total(milestones, count) == 0,
    decreases count,
{
    if count > 0 {
        let last = (count - 1) as u32;
        assert(milestones::has_status(milestones, last, MilestoneStatus::Released));
        lemma_released_leave_nothing_pending(milestones, last);
    }
}

/// A milestone is releasable exactly when the campaign is not cancelled, the
/// milestone is the next one to be released, and each one before it is
/// `Released`.
pub proof fn releasable_is_next(campaign: CampaignData, milestones: Milestones, index: u32)
    ensures
        views::releasable(campaign, milestones, index) <==> {
            &&& !(campaign.status is Cancelled)
            &&& milestones::names_next(milestones, campaign.milestone_count, Some(index))
            &&& milestones::prior_released(milestones, index)
        },
{
    if views::releasable(campaign, milestones, index) {
        assert forall|i: u32| i < index implies !#[trigger] milestones::has_status(
            milestones,
            i,
            MilestoneStatus::Unlocked,
        ) by {
            assert(milestones::has_status(milestones, i, MilestoneStatus::Released));
        }
    }
}

/// At most one milestone is releasable.
pub proof fn releasable_is_unique(campaign: CampaignData, milestones: Milestones, i: u32, j: u32)
    requires
        views::releasable(campaign, milestones, i),
        views::releasable(campaign, milestones, j),
    ensures
        i == j,
{
    releasable_is_next(campaign, milestones, i);
    releasable_is_next(campaign, milestones, j);
    next_is_unique(milestones, i, j);
}

/// Milestones are released in sequence: once a releasable milestone is stored
/// as `Released`, it is not releasable any more, and the releasable one is a
/// later one that is `Unlocked` with nothing but `Released` ones in between.
pub proof fn release_moves_on(
    campaign: CampaignData,
    milestones: Milestones,
    index: u32,
    released: MilestoneData,
    other: u32,
)
    requires
        views::releasable(campaign, milestones, index),
        released.status == MilestoneStatus::Released,
    ensures
        views::releasable(campaign, milestones.insert(index, released), other) <==> {
            &&& index < other < campaign.milestone_count
            &&& milestones::has_status(milestones, other, MilestoneStatus::Unlocked)
            &&& forall|i: u32|
                index < i < other ==> #[trigger] milestones::has_status(
                    milestones,
                    i,
                    MilestoneStatus::Released,
                )
        },
{
    let after = milestones.insert(index, released);
    assert(milestones::has_status(after, index, MilestoneStatus::Released));
    assert forall|i: u32|
        i != index implies #[trigger] milestones::has_status(
        after,
        i,
        MilestoneStatus::Released,
    ) == milestones::has_status(milestones, i, MilestoneStatus::Released) by {}
    if views::releasable(campaign, after, other) {
        if other < index {
            assert(milestones::has_status(milestones, other, MilestoneStatus::Released));
        }
        assert forall|i: u32| index < i < other implies #[trigger] milestones::has_status(
            milestones,
            i,
            MilestoneStatus::Released,
        ) by {
            assert(milestones::has_status(after, i, MilestoneStatus::Released));
        }
    }
}

/// A milestone has nothing left to release exactly when it is fully released,
/// and what is left is never negative.
pub proof fn nothing_pending_means_fully_released(milestone: MilestoneData)
    ensures
        milestone.pending() >= 0,
        milestone.pending() == 0 <==> milestone.fully_released(),
{
}

/// What is released and what is pending make up the target, as long as the
/// released amount lies between zero and the target.
pub proof fn released_and_pending_make_the_target(milestone: MilestoneData)
    requires
        0 <= milestone.released_amount <= milestone.target_amount,
    ensures
        milestone.released_amount + milestone.pending() == milestone.target_amount,
{
}

/// Nothing is missing from the goal exactly when as much is raised, and what
/// is missing is never negative.
pub proof fn nothing_missing_means_goal_met(campaign: CampaignData)
    ensures
        campaign.missing() >= 0,
        campaign.missing() == 0 <==> campaign.raised_amount >= campaign.goal_amount,
{
}

/// The sum, over the records stored below `count` whose status field is not
/// `Released`, of the part of the target that is not released.
pub open spec fn pending_sum(milestones: Milestones, count: u32) -> int
    decreases count,
{
    if count == 0 {
        0
    } else {
        let last = (count - 1) as u32;
        pending_sum(milestones, last) + if milestones.contains_key(last) && !(
        milestones[last].status is Released) {
            vstd::math::min(
                vstd::math::max(
                    milestones[last].target_amount - milestones[last].released_amount,
                    0,
                ),
                i128::MAX as int,
            )
        } else {
            0
        }
    }
}

/// The pending total of a summary is the sum of what is pending, or the largest
/// amount when that sum does not fit.
pub proof fn pending_total_is_the_sum(milestones: Milestones, count: u32)
    ensures
        milestones::pending_total(milestones, count) == amounts::clamped(
            pending_sum(milestones, count),
            0,
            i128::MAX as int,
        ),
        pending_sum(milestones, count) >= 0,
    decreases count,
{
    if count > 0 {
        pending_total_is_the_sum(milestones, (count - 1) as u32);
    }
}

/// The sum of the released amounts of the records stored below `count` whose
/// status field is `Released`.
pub open spec fn released_sum(milestones: Milestones, count: u32) -> int
    decreases count,
{
    if count == 0 {
        0
    } else {
        let last = (count - 1) as u32;
        released_sum(milestones, last) + if milestones.contains_key(last)
            && milestones[last].status is Released {
            milestones[last].released_amount as int
        } else {
            0
        }
    }
}

/// The released total of a summary is the sum of the released amounts, or the
/// largest amount when that sum does not fit, as long as none is negative.
pub proof fn released_total_is_the_sum(milestones: Milestones, count: u32)
    requires
        forall|i: u32|
            i < count && #[trigger] milestones::has_status(
                milestones,
                i,
                MilestoneStatus::Released,
            ) ==> milestones[i].released_amount >= 0,
    ensures
        milestones::released_total(milestones, count) == amounts::clamped(
            released_sum(milestones, count),
            0,
            i128::MAX as int,
        ),
        released_sum(milestones, count) >= 0,
    decreases count,
{
    if count > 0 {
        released_total_is_the_sum(milestones, (count - 1) as u32);
    }
}

/// Whether no sum of released or pending amounts saturates on the way to the
/// totals over the milestones below `count`.
pub open spec fn totals_fit(milestones: Milestones, count: u32) -> bool {
    forall|i: u32|
        i <= count ==> {
            &&& i128::MIN <= #[trigger] released_sum(milestones, i) <= i128::MAX
            &&& pending_sum(milestones, i) <= i128::MAX
        }
}

/// As long as no released amount is negative, no sum saturates when both totals
/// stay below the largest amount.
pub proof fn totals_below_the_bound_fit(milestones: Milestones, count: u32)
    requires
        forall|i: u32|
            i < count && #[trigger] milestones::has_status(
                milestones,
                i,
                MilestoneStatus::Released,
            ) ==> milestones[i].released_amount >= 0,
        milestones::released_total(milestones, count) < i128::MAX,
        milestones::pending_total(milestones, count) < i128::MAX,
    ensures
        totals_fit(milestones, count),
    decreases count,
{
    released_total_is_the_sum(milestones, count);
    pending_total_is_the_sum(milestones, count);
    if count > 0 {
        let last = (count - 1) as u32;
        released_total_is_the_sum(milestones, last);
        pending_total_is_the_sum(milestones, last);
        totals_below_the_bound_fit(milestones, last);
    }
}

/// Totals that do not saturate are the sums.
proof fn lemma_fitting_totals(milestones: Milestones, count: u32)
    requires
        totals_fit(milestones, count),
    ensures
        milestones::released_total(milestones, count) == released_sum(milestones, count),
        milestones::pending_total(milestones, count) == pending_sum(milestones, count),
    decreases count,
{
    assert(i128::MIN <= released_sum(milestones, count) <= i128::MAX);
    pending_total_is_the_sum(milestones, count);
    if count > 0 {
        let last = (count - 1) as u32;
        assert(totals_fit(milestones, last));
        lemma_fitting_totals(milestones, last);
    }
}

/// Replacing an `Unlocked` milestone by a `Released` one moves the counts and
/// the sums over every range that holds it, and leaves all others alone.
proof fn lemma_release_one(
    milestones: Milestones,
    index: u32,
    released: MilestoneData,
    count: u32,
)
    requires
        milestones::has_status(milestones, index, MilestoneStatus::Unlocked),
        released.status == MilestoneStatus::Released,
    ensures
        ({
            let after = milestones.insert(index, released);
            let moved = if index < count {
                1int
            } else {
                0
            };
            &&& milestones::count_with_status(after, count, MilestoneStatus::Locked)
                == milestones::count_with_status(milestones, count, MilestoneStatus::Locked)
            &&& milestones::count_with_status(after, count, MilestoneStatus::Unlocked)
                == milestones::count_with_status(milestones, count, MilestoneStatus::Unlocked)
                - moved
            &&& milestones::count_with_status(after, count, MilestoneStatus::Released)
                == milestones::count_with_status(milestones, count, MilestoneStatus::Released)
                + moved
            &&& released_sum(after, count) == released_sum(milestones, count) + (if index < count {
                released.released_amount as int
            } else {
                0
            })
            &&& pending_sum(after, count) == pending_sum(milestones, count) - (if index < count {
                milestones[index].pending()
            } else {
                0
            })
        }),
    decreases count,
{
    if count > 0 {
        lemma_release_one(milestones, index, released, (count - 1) as u32);
    }
}

/// Releasing an `Unlocked` milestone moves one from the unlocked count to the
/// released count, adds what it released to the released total, and takes what
/// was pending on it from the pending total, as long as no sum saturates. The
/// other counts stay.
pub proof fn release_moves_the_summary(
    milestones: Milestones,
    count: u32,
    index: u32,
    released: MilestoneData,
    before: MilestoneSummary,
    after: MilestoneSummary,
)
    requires
        index < count,
        milestones::has_status(milestones, index, MilestoneStatus::Unlocked),
        released.status == MilestoneStatus::Released,
        before.sums_up(milestones, count),
        after.sums_up(milestones.insert(index, released), count),
        totals_fit(milestones, count),
        totals_fit(milestones.insert(index, released), count),
    ensures
        after.total == before.total,
        after.locked == before.locked,
        after.unlocked == before.unlocked - 1,
        after.released == before.released + 1,
        after.total_released_amount == before.total_released_amount + released.released_amount,
        after.total_pending_amount == before.total_pending_amount - milestones[index].pending(),
{
    lemma_release_one(milestones, index, released, count);
    lemma_fitting_totals(milestones, count);
    lemma_fitting_totals(milestones.insert(index, released), count);
}

/// Releasing an `Unlocked` milestone in full, where no amount is negative and no
/// total reaches the largest amount: the released total grows by the target of
/// the milestone, and the pending total falls by what was pending on it.
pub proof fn full_release_moves_the_summary(
    milestones: Milestones,
    count: u32,
    index: u32,
    released: MilestoneData,
    before: MilestoneSummary,
    after: MilestoneSummary,
)
    requires
        index < count,
        milestones::has_status(milestones, index, MilestoneStatus::Unlocked),
        released.status == MilestoneStatus::Released,
        released.released_amount == milestones[index].target_amount,
        before.sums_up(milestones, count),
        after.sums_up(milestones.insert(index, released), count),
        milestones[index].target_amount >= 0,
        forall|i: u32|
            i < count && #[trigger] milestones::has_status(
                milestones,
                i,
                MilestoneStatus::Released,
            ) ==> milestones[i].released_amount >= 0,
        before.total_released_amount < i128::MAX,
        before.total_pending_amount < i128::MAX,
        after.total_released_amount < i128::MAX,
    ensures
        after.total == before.total,
        after.locked == before.locked,
        after.unlocked == before.unlocked - 1,
        after.released == before.released + 1,
        after.total_released_amount == before.total_released_amount
            + milestones[index].target_amount,
        after.total_pending_amount == before.total_pending_amount - milestones[index].pending(),
{
    let stored = milestones.insert(index, released);
    lemma_release_one(milestones, index, released, count);
    pending_total_is_the_sum(milestones, count);
    pending_total_is_the_sum(stored, count);
    assert forall|i: u32|
        i < count && #[trigger] milestones::has_status(
            stored,
            i,
            MilestoneStatus::Released,
        ) implies stored[i].released_amount >= 0 by {
        if i != index {
            assert(milestones::has_status(milestones, i, MilestoneStatus::Released));
        }
    }
    totals_below_the_bound_fit(milestones, count);
    totals_below_the_bound_fit(stored, count);
    release_moves_the_summary(milestones, count, index, released, before, after);
}

/// Progress lies between 0 and 10 000 basis points.
pub proof fn progress_is_in_range(raised: i128, goal: i128)
    ensures
        0 <= amounts::progress(raised, goal) <= amounts::FULL_BPS,
{
}

/// A campaign without donations has made no progress, nor has one without a
/// goal.
pub proof fn nothing_raised_is_no_progress(raised: i128, goal: i128)
    requires
        raised == 0 || goal == 0,
    ensures
        amounts::progress(raised, goal) == 0,
{
    if goal != 0 {
        let divisor = goal as int;
        assert(0int / divisor == 0) by (nonlinear_arith)
            requires
                divisor != 0,
        ;
    }
}

/// Progress is the raised share of the goal in basis points, rounded down, and
/// 10 000 once the goal is met.
pub proof fn progress_is_the_share(raised: i128, goal: i128)
    requires
        0 <= raised,
        0 < goal,
    ensures
        amounts::progress(raised, goal) == (if raised >= goal {
            10_000int
        } else {
            (raised * 10_000) / (goal as int)
        }),
{
    let quotient = (raised * 10_000) / (goal as int);
    assert(quotient >= 0 && (raised >= goal <==> quotient >= 10_000)) by (nonlinear_arith)
        requires
            quotient == (raised * 10_000) / (goal as int),
            raised >= 0,
            goal > 0,
    ;
}

/// Progress towards a positive goal is full exactly when as much is raised.
pub proof fn full_progress_means_funded(raised: i128, goal: i128)
    requires
        0 < goal,
    ensures
        amounts::progress(raised, goal) == 10_000 <==> raised >= goal,
{
    if raised >= 0 {
        progress_is_the_share(raised, goal);
        if raised < goal {
            assert((raised * 10_000) / (goal as int) < 10_000) by (nonlinear_arith)
                requires
                    0 <= raised < goal,
            ;
        }
    } else {
        assert((-(raised * 10_000)) / (goal as int) >= 0) by (nonlinear_arith)
            requires
                raised < 0,
                goal > 0,
        ;
    }
}

/// An over-funded campaign shows exactly 100 %.
pub proof fn overfunded_shows_full_progress(raised: i128, goal: i128)
    requires
        0 < goal <= raised,
    ensures
        amounts::progress(raised, goal) == 10_000,
{
    full_progress_means_funded(raised, goal);
}

/// Raising more never lowers the progress towards a goal that is not negative.
pub proof fn progress_grows_with_donations(raised: i128, more: i128, goal: i128)
    requires
        raised <= more,
        0 <= goal,
    ensures
        amounts::progress(raised, goal) <= amounts::progress(more, goal),
{
    if goal > 0 {
        let low = raised * 10_000;
        let high = more * 10_000;
        let divisor = goal as int;
        assert(low >= 0 ==> low / divisor <= high / divisor) by (nonlinear_arith)
            requires
                low <= high,
                divisor > 0,
        ;
        assert(low < 0 ==> (-low) / divisor >= 0) by (nonlinear_arith)
            requires
                divisor > 0,
        ;
    }
}

} // verus!
