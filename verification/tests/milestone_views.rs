use campaign_views::milestones::{count_released_milestones, find_next_pending_index};
use campaign_views::storage::CampaignStorage;
use campaign_views::types::{
    Address, CampaignData, CampaignStatus, Error, MilestoneData, MilestoneStatus,
};
use campaign_views::views::{
    get_all_milestones, get_milestone_by_index, get_milestone_summary, is_milestone_releasable,
    MilestoneSummary,
};

fn address(fill: u8) -> Address {
    Address { strkey: [fill; 56] }
}

fn default_milestone(index: u32, status: MilestoneStatus) -> MilestoneData {
    MilestoneData {
        index,
        target_amount: (index as i128 + 1) * 1_000,
        released_amount: if status == MilestoneStatus::Released {
            (index as i128 + 1) * 1_000
        } else {
            0
        },
        description_hash: [0u8; 32],
        status,
        released_at: None,
        released_at_ledger: None,
        release_tx: None,
        released_to: None,
    }
}

fn campaign(milestone_count: u32, status: CampaignStatus) -> CampaignData {
    CampaignData {
        creator: address(b'G'),
        goal_amount: 10_000,
        raised_amount: 2_500,
        end_time: 1_700_000_000,
        status,
        accepted_assets: Vec::new(),
        milestone_count,
    }
}

fn storage_with(statuses: &[MilestoneStatus]) -> CampaignStorage {
    let mut storage = CampaignStorage::new();
    for (i, status) in statuses.iter().enumerate() {
        storage.set_milestone(i as u32, default_milestone(i as u32, *status));
    }
    storage
}

fn active_with(statuses: &[MilestoneStatus]) -> CampaignStorage {
    let mut storage = storage_with(statuses);
    storage.set_campaign(campaign(statuses.len() as u32, CampaignStatus::Active));
    storage
}

#[test]
fn find_next_pending_returns_first_unlocked() {
    let m0 = default_milestone(0, MilestoneStatus::Released);
    let m1 = default_milestone(1, MilestoneStatus::Unlocked);
    let mut storage = CampaignStorage::new();
    storage.set_milestone(0, m0);
    storage.set_milestone(1, m1);

    let result = find_next_pending_index(&storage, 2);
    assert_eq!(result, Some(1));
}

#[test]
fn find_next_pending_returns_none_when_all_released() {
    let m0 = default_milestone(0, MilestoneStatus::Released);
    let mut storage = CampaignStorage::new();
    storage.set_milestone(0, m0);

    let result = find_next_pending_index(&storage, 1);
    assert_eq!(result, None);
}

#[test]
fn find_next_pending_returns_none_when_all_locked() {
    let m0 = default_milestone(0, MilestoneStatus::Locked);
    let mut storage = CampaignStorage::new();
    storage.set_milestone(0, m0);

    let result = find_next_pending_index(&storage, 1);
    assert_eq!(result, None);
}

#[test]
fn find_next_pending_looks_below_the_count_only() {
    let storage = storage_with(&[MilestoneStatus::Locked, MilestoneStatus::Unlocked]);
    assert_eq!(find_next_pending_index(&storage, 1), None);
    assert_eq!(find_next_pending_index(&storage, 0), None);
    assert_eq!(find_next_pending_index(&storage, 9), Some(1));
}

#[test]
fn count_released_milestones_counts_correctly() {
    let mut storage = CampaignStorage::new();
    storage.set_milestone(0, default_milestone(0, MilestoneStatus::Released));
    storage.set_milestone(1, default_milestone(1, MilestoneStatus::Unlocked));
    storage.set_milestone(2, default_milestone(2, MilestoneStatus::Locked));

    assert_eq!(count_released_milestones(&storage, 3), 1);
}

#[test]
fn milestone_view_is_next_pending_set_correctly() {
    let m0 = default_milestone(0, MilestoneStatus::Released);
    let m1 = default_milestone(1, MilestoneStatus::Unlocked);
    let mut storage = CampaignStorage::new();
    storage.set_milestone(0, m0);
    storage.set_milestone(1, m1);

    let next = find_next_pending_index(&storage, 2);
    assert_eq!(next, Some(1));
    assert_ne!(next, Some(0));

    storage.set_campaign(campaign(2, CampaignStatus::Active));
    let views = get_all_milestones(&storage).unwrap();
    assert!(!views[0].is_next_pending);
    assert!(views[1].is_next_pending);
}

#[test]
fn is_milestone_releasable_requires_sequential_order() {
    let m0 = default_milestone(0, MilestoneStatus::Locked);
    let m1 = default_milestone(1, MilestoneStatus::Unlocked);
    let mut storage = CampaignStorage::new();
    storage.set_milestone(0, m0);
    storage.set_milestone(1, m1);

    let prior_released = {
        let prior = storage.get_milestone(0).unwrap();
        prior.status == MilestoneStatus::Released
    };
    assert!(!prior_released, "prior milestone must be Released first");

    storage.set_campaign(campaign(2, CampaignStatus::Active));
    assert_eq!(is_milestone_releasable(&storage, 1), Ok(false));
}

#[test]
fn nothing_is_viewed_before_the_campaign_is_stored() {
    let storage = storage_with(&[MilestoneStatus::Unlocked]);
    assert_eq!(get_all_milestones(&storage), Err(Error::NotInitialized));
    assert_eq!(get_milestone_by_index(&storage, 0), Err(Error::NotInitialized));
    assert_eq!(get_milestone_summary(&storage), Err(Error::NotInitialized));
    assert_eq!(is_milestone_releasable(&storage, 0), Err(Error::NotInitialized));
}

#[test]
fn all_milestones_come_in_index_order() {
    let storage = active_with(&[
        MilestoneStatus::Released,
        MilestoneStatus::Unlocked,
        MilestoneStatus::Unlocked,
        MilestoneStatus::Locked,
    ]);
    let views = get_all_milestones(&storage).unwrap();
    assert_eq!(views.len(), 4);
    for (i, view) in views.iter().enumerate() {
        assert_eq!(view.data.index, i as u32);
        assert_eq!(get_milestone_by_index(&storage, i as u32), Ok(*view));
        assert_eq!(view.is_next_pending, i == 1);
        assert_eq!(view.is_fully_released, i == 0);
    }
    assert_eq!(views[0].pending_release, 0);
    assert_eq!(views[3].pending_release, 4_000);
}

#[test]
fn a_campaign_without_milestones_has_no_views() {
    let storage = active_with(&[]);
    assert_eq!(get_all_milestones(&storage), Ok(Vec::new()));
}

#[test]
fn a_missing_milestone_is_not_found() {
    let mut storage = storage_with(&[MilestoneStatus::Released]);
    storage.set_campaign(campaign(2, CampaignStatus::Active));
    assert_eq!(get_all_milestones(&storage), Err(Error::MilestoneNotFound));
    assert!(get_milestone_by_index(&storage, 0).is_ok());
    assert_eq!(get_milestone_by_index(&storage, 1), Err(Error::MilestoneNotFound));
    assert_eq!(get_milestone_by_index(&storage, 2), Err(Error::MilestoneNotFound));
}

#[test]
fn an_index_past_the_count_is_not_found_though_stored() {
    let mut storage = storage_with(&[MilestoneStatus::Unlocked, MilestoneStatus::Unlocked]);
    storage.set_campaign(campaign(1, CampaignStatus::Active));
    assert_eq!(get_milestone_by_index(&storage, 1), Err(Error::MilestoneNotFound));
    assert_eq!(is_milestone_releasable(&storage, 1), Err(Error::MilestoneNotFound));
}

#[test]
fn over_released_milestone_has_nothing_pending() {
    let mut milestone = default_milestone(0, MilestoneStatus::Released);
    milestone.released_amount = 1_500;
    assert_eq!(milestone.pending_release(), 0);
    assert!(milestone.is_fully_released());
    milestone.released_amount = 400;
    assert_eq!(milestone.pending_release(), 600);
    assert!(!milestone.is_fully_released());
    milestone.target_amount = i128::MAX;
    milestone.released_amount = -1;
    assert_eq!(milestone.pending_release(), i128::MAX);
}

#[test]
fn summary_counts_and_totals() {
    let storage = active_with(&[
        MilestoneStatus::Released,
        MilestoneStatus::Locked,
        MilestoneStatus::Unlocked,
        MilestoneStatus::Unlocked,
    ]);
    assert_eq!(
        get_milestone_summary(&storage),
        Ok(MilestoneSummary {
            total: 4,
            locked: 1,
            unlocked: 2,
            released: 1,
            total_released_amount: 1_000,
            total_pending_amount: 9_000,
            next_pending_index: Some(2),
        })
    );
}

#[test]
fn summary_counts_add_up_exactly_when_all_are_stored() {
    let mut storage = active_with(&[
        MilestoneStatus::Unlocked,
        MilestoneStatus::Locked,
        MilestoneStatus::Released,
    ]);
    let summary = get_milestone_summary(&storage).unwrap();
    assert_eq!(summary.locked + summary.unlocked + summary.released, summary.total);
    assert_eq!(summary.total as usize, get_all_milestones(&storage).unwrap().len());

    storage.set_campaign(campaign(4, CampaignStatus::Active));
    let summary = get_milestone_summary(&storage).unwrap();
    assert_eq!(summary.locked + summary.unlocked + summary.released, 3);
    assert_eq!(summary.total, 4);
    assert!(get_all_milestones(&storage).is_err());
}

#[test]
fn summary_names_a_next_milestone_exactly_when_one_is_unlocked() {
    let storage = active_with(&[MilestoneStatus::Locked, MilestoneStatus::Unlocked]);
    let summary = get_milestone_summary(&storage).unwrap();
    assert_eq!((summary.unlocked, summary.next_pending_index), (1, Some(1)));

    let storage = active_with(&[MilestoneStatus::Locked, MilestoneStatus::Released]);
    let summary = get_milestone_summary(&storage).unwrap();
    assert_eq!((summary.unlocked, summary.next_pending_index), (0, None));
}

#[test]
fn released_and_pending_make_the_target() {
    let mut milestone = default_milestone(2, MilestoneStatus::Unlocked);
    milestone.released_amount = 1_234;
    assert_eq!(milestone.released_amount + milestone.pending_release(), milestone.target_amount);
}

#[test]
fn releasing_a_milestone_moves_the_summary() {
    let mut storage = active_with(&[
        MilestoneStatus::Released,
        MilestoneStatus::Unlocked,
        MilestoneStatus::Locked,
    ]);
    let mut partly = default_milestone(1, MilestoneStatus::Unlocked);
    partly.released_amount = 300;
    storage.set_milestone(1, partly);
    let before = get_milestone_summary(&storage).unwrap();

    storage.set_milestone(1, default_milestone(1, MilestoneStatus::Released));
    let after = get_milestone_summary(&storage).unwrap();
    assert_eq!((after.total, after.locked), (before.total, before.locked));
    assert_eq!(after.unlocked, before.unlocked - 1);
    assert_eq!(after.released, before.released + 1);
    assert_eq!(after.total_released_amount, before.total_released_amount + 2_000);
    assert_eq!(after.total_pending_amount, before.total_pending_amount - 1_700);
}

#[test]
fn summary_skips_what_is_not_stored() {
    let mut storage = CampaignStorage::new();
    storage.set_campaign(campaign(3, CampaignStatus::Active));
    storage.set_milestone(2, default_milestone(2, MilestoneStatus::Locked));
    let summary = get_milestone_summary(&storage).unwrap();
    assert_eq!(summary.total, 3);
    assert_eq!(summary.locked, 1);
    assert_eq!(summary.unlocked, 0);
    assert_eq!(summary.released, 0);
    assert_eq!(summary.total_pending_amount, 3_000);
    assert_eq!(summary.next_pending_index, None);
}

#[test]
fn summary_totals_saturate() {
    let mut storage = CampaignStorage::new();
    storage.set_campaign(campaign(4, CampaignStatus::Active));
    for i in 0..2u32 {
        let mut milestone = default_milestone(i, MilestoneStatus::Locked);
        milestone.target_amount = i128::MAX;
        storage.set_milestone(i, milestone);
    }
    for i in 2..4u32 {
        let mut milestone = default_milestone(i, MilestoneStatus::Released);
        milestone.released_amount = i128::MIN;
        storage.set_milestone(i, milestone);
    }
    let summary = get_milestone_summary(&storage).unwrap();
    assert_eq!(summary.total_pending_amount, i128::MAX);
    assert_eq!(summary.total_released_amount, i128::MIN);
}

#[test]
fn the_next_milestone_is_releasable_once_the_prior_ones_are_released() {
    let mut storage = active_with(&[
        MilestoneStatus::Released,
        MilestoneStatus::Unlocked,
        MilestoneStatus::Unlocked,
    ]);
    assert_eq!(is_milestone_releasable(&storage, 0), Ok(false));
    assert_eq!(is_milestone_releasable(&storage, 1), Ok(true));
    assert_eq!(is_milestone_releasable(&storage, 2), Ok(false));

    storage.set_milestone(1, default_milestone(1, MilestoneStatus::Released));
    assert_eq!(is_milestone_releasable(&storage, 1), Ok(false));
    assert_eq!(is_milestone_releasable(&storage, 2), Ok(true));
    assert_eq!(find_next_pending_index(&storage, 3), Some(2));
}

#[test]
fn a_cancelled_campaign_releases_nothing() {
    let mut storage = active_with(&[MilestoneStatus::Unlocked]);
    assert_eq!(is_milestone_releasable(&storage, 0), Ok(true));
    storage.set_campaign(campaign(1, CampaignStatus::Cancelled));
    assert_eq!(is_milestone_releasable(&storage, 0), Ok(false));
    assert_eq!(is_milestone_releasable(&storage, 5), Ok(false));
}

#[test]
fn releasability_of_an_unknown_milestone_is_an_error() {
    let mut storage = CampaignStorage::new();
    storage.set_campaign(campaign(2, CampaignStatus::Active));
    storage.set_milestone(1, default_milestone(1, MilestoneStatus::Unlocked));
    assert_eq!(is_milestone_releasable(&storage, 0), Err(Error::MilestoneNotFound));
    assert_eq!(is_milestone_releasable(&storage, 2), Err(Error::MilestoneNotFound));
    assert_eq!(is_milestone_releasable(&storage, 1), Ok(false));
}
