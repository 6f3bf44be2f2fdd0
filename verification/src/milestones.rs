//! What the stored milestones say together: which one is next, how many stand
//! where, and what they add up to.
use vstd::prelude::*;

use crate::amounts;
use crate::storage::CampaignStorage;
use crate::types::{MilestoneData, MilestoneStatus};

verus! {

/// The stored milestones by index.
pub type Milestones = Map<u32, MilestoneData>;

/// Whether a milestone is stored under `index` and has this status.
pub open spec fn has_status(milestones: Milestones, index: u32, status: MilestoneStatus) -> bool {
    milestones.contains_key(index) && milestones[index].status == status
}

/// Whether a milestone is stored under each index below `count`.
pub open spec fn all_stored(milestones: Milestones, count: u32) -> bool {
    forall|i: u32| i < count ==> #[trigger] milestones.contains_key(i)
}

/// Whether the milestone under `index` is the next one to be released: it is
/// `Unlocked`, and none before it is.
pub open spec fn is_next(milestones: Milestones, index: u32) -> bool {
    &&& has_status(milestones, index, MilestoneStatus::Unlocked)
    &&& forall|i: u32|
        i < index ==> !#[trigger] has_status(milestones, i, MilestoneStatus::Unlocked)
}

/// Whether `next` names the next milestone to be released among those with an
/// index below `count`, or is `None` because there is none.
pub open spec fn names_next(milestones: Milestones, count: u32, next: Option<u32>) -> bool {
    match next {
        Some(index) => index < count && is_next(milestones, index),
        None => forall|i: u32|
            i < count ==> !#[trigger] has_status(milestones, i, MilestoneStatus::Unlocked),
    }
}

/// Whether each milestone before `index` is stored and `Released`.
pub open spec fn prior_released(milestones: Milestones, index: u32) -> bool {
    forall|i: u32| i < index ==> #[trigger] has_status(milestones, i, MilestoneStatus::Released)
}

/// How many milestones with an index below `count` have this status.
pub open spec fn count_with_status(
    milestones: Milestones,
    count: u32,
    status: MilestoneStatus,
) -> nat
    decreases count,
{
    if count == 0 {
        0
    } else {
        let last = (count - 1) as u32;
        count_with_status(milestones, last, status) + if has_status(milestones, last, status) {
            1nat
        } else {
            0nat
        }
    }
}

/// The released amounts of the `Released` milestones below `count`, added in
/// index order with a sum that saturates.
pub open spec fn released_total(milestones: Milestones, count: u32) -> int
    decreases count,
{
    if count == 0 {
        0
    } else {
        let last = (count - 1) as u32;
        let before = released_total(milestones, last);
        if has_status(milestones, last, MilestoneStatus::Released) {
            amounts::saturated_sum(before, milestones[last].released_amount as int)
        } else {
            before
        }
    }
}

/// Whether a milestone is stored under `index` and is not `Released` yet.
pub open spec fn is_pending(milestones: Milestones, index: u32) -> bool {
    ||| has_status(milestones, index, MilestoneStatus::Locked)
    ||| has_status(milestones, index, MilestoneStatus::Unlocked)
}

/// The pending amounts of the milestones below `count` that are not `Released`
/// yet, added in index order with a sum that saturates.
pub open spec fn pending_total(milestones: Milestones, count: u32) -> int
    decreases count,
{
    if count == 0 {
        0
    } else {
        let last = (count - 1) as u32;
        let before = pending_total(milestones, last);
        if is_pending(milestones, last) {
            amounts::saturated_sum(before, milestones[last].pending())
        } else {
            before
        }
    }
}

/// The index of the first milestone that is `Unlocked`, in ascending order.
pub fn find_next_pending_index(storage: &CampaignStorage, count: u32) -> (next: Option<u32>)
    ensures
        names_next(storage@.milestones, count, next),
{
    for i in 0..count
        invariant
            forall|j: u32|
                j < i ==> !#[trigger] has_status(
                    storage@.milestones,
                    j,
                    MilestoneStatus::Unlocked,
                ),
    {
        if let Some(milestone) = storage.get_milestone(i) {
            if milestone.status == MilestoneStatus::Unlocked {
                return Some(i);
            }
        }
    }
    None
}

/// Counts the milestones that are `Released`.
pub fn count_released_milestones(storage: &CampaignStorage, count: u32) -> (released: u32)
    ensures
        released == count_with_status(storage@.milestones, count, MilestoneStatus::Released),
{
    let mut released: u32 = 0;
    for i in 0..count
        invariant
            released <= i,
            released == count_with_status(storage@.milestones, i, MilestoneStatus::Released),
    {
        if let Some(milestone) = storage.get_milestone(i) {
            if milestone.status == MilestoneStatus::Released {
                released += 1;
            }
        }
    }
    released
}

} // verus!
