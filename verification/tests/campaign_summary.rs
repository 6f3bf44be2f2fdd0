use campaign_views::amounts::{progress_bps, saturating_sum, shortfall};
use campaign_views::storage::CampaignStorage;
use campaign_views::types::{
    Address, CampaignData, CampaignStatus, Error, MilestoneData, MilestoneStatus,
};
use campaign_views::views::{get_campaign_summary, get_milestone_summary, CampaignSummary};

fn address(fill: u8) -> Address {
    Address { strkey: [fill; 56] }
}

fn campaign(raised_amount: i128, goal_amount: i128) -> CampaignData {
    CampaignData {
        creator: address(b'G'),
        goal_amount,
        raised_amount,
        end_time: 1_700_000_000,
        status: CampaignStatus::Active,
        accepted_assets: Vec::new(),
        milestone_count: 2,
    }
}

fn milestone(index: u32, status: MilestoneStatus) -> MilestoneData {
    MilestoneData {
        index,
        target_amount: 1_000,
        released_amount: 0,
        description_hash: [7u8; 32],
        status,
        released_at: None,
        released_at_ledger: None,
        release_tx: None,
        released_to: None,
    }
}

#[test]
fn progress_bps_clamps_at_10000_for_overfunded_campaign() {
    let goal: i64 = 1_000;
    let raised: i64 = 1_500;
    let bps = progress_bps(raised as i128, goal as i128);
    assert_eq!(bps, 10_000);
}

#[test]
fn progress_bps_is_zero_for_no_donations() {
    let goal: i64 = 1_000;
    let raised: i64 = 0;
    let bps = progress_bps(raised as i128, goal as i128);
    assert_ne!(bps, 10_000);
    assert_eq!(bps, 0);
}

#[test]
fn progress_bps_50_percent() {
    let goal: i64 = 1_000;
    let raised: i64 = 500;
    let bps = progress_bps(raised as i128, goal as i128);
    assert!(bps < 10_000);
    assert_eq!(bps, 5_000);
}

#[test]
fn progress_rounds_down() {
    assert_eq!(progress_bps(1, 3), 3_333);
    assert_eq!(progress_bps(2, 3), 6_666);
    assert_eq!(progress_bps(999_999, 1_000_000), 9_999);
}

#[test]
fn progress_is_zero_without_a_goal_or_with_a_negative_amount() {
    assert_eq!(progress_bps(500, 0), 0);
    assert_eq!(progress_bps(-500, 1_000), 0);
    assert_eq!(progress_bps(500, -1_000), 0);
    assert_eq!(progress_bps(-500, -1_000), 5_000);
}

#[test]
fn progress_grows_with_what_is_raised() {
    let mut last = 0;
    for raised in 0..2_000 {
        let bps = progress_bps(raised, 1_234);
        assert!(last <= bps && bps <= 10_000);
        last = bps;
    }
    assert_eq!(last, 10_000);
}

#[test]
fn progress_of_large_amounts_is_the_true_share() {
    let large: i128 = 1_000_000_000_000_000_000;
    assert_eq!(progress_bps(large, large), 10_000);
    assert_eq!(progress_bps(2 * large, large), 10_000);
    assert_eq!(progress_bps(large / 4, large), 2_500);
    assert_eq!(progress_bps(1i128 << 64, 1_000), 10_000);
    assert_eq!(progress_bps(0, 1i128 << 64), 0);
    assert_eq!(progress_bps(500, 1i128 << 64), 0);
    assert_eq!(progress_bps((1i128 << 64) + 500, 1_000), 10_000);
}

#[test]
fn progress_at_the_bounds_of_the_amounts() {
    assert_eq!(progress_bps(i128::MAX, i128::MAX), 10_000);
    assert_eq!(progress_bps(i128::MAX - 1, i128::MAX), 9_999);
    assert_eq!(progress_bps(i128::MAX / 2, i128::MAX), 4_999);
    assert_eq!(progress_bps(i128::MAX / 3, i128::MAX), 3_333);
    assert_eq!(progress_bps(1, i128::MAX), 0);
    assert_eq!(progress_bps(i128::MAX, 1), 10_000);
    assert_eq!(progress_bps(i128::MIN, i128::MIN), 10_000);
    assert_eq!(progress_bps(i128::MIN / 2, i128::MIN), 5_000);
    assert_eq!(progress_bps(i128::MIN, -1), 10_000);
    assert_eq!(progress_bps(i128::MIN, i128::MAX), 0);
    assert_eq!(progress_bps(i128::MAX, i128::MIN), 0);
}

#[test]
fn progress_agrees_with_a_plain_division_where_that_fits() {
    for goal in [1i128, 7, 10_000, 65_537, 999_999_937] {
        for raised in [0i128, 1, 3, 9_999, 65_536, 500_000_003, 999_999_936] {
            let plain = (raised * 10_000 / goal).min(10_000);
            assert_eq!(progress_bps(raised, goal) as i128, plain);
        }
    }
}

#[test]
fn sums_and_shortfalls_saturate() {
    assert_eq!(saturating_sum(2, 3), 5);
    assert_eq!(saturating_sum(i128::MAX, 1), i128::MAX);
    assert_eq!(saturating_sum(i128::MIN, -1), i128::MIN);
    assert_eq!(saturating_sum(i128::MIN, i128::MAX), -1);
    assert_eq!(shortfall(10, 4), 6);
    assert_eq!(shortfall(4, 10), 0);
    assert_eq!(shortfall(i128::MAX, i128::MIN), i128::MAX);
    assert_eq!(shortfall(-1, i128::MIN), i128::MAX);
}

#[test]
fn summary_of_a_campaign() {
    let mut storage = CampaignStorage::new();
    assert_eq!(get_campaign_summary(&storage), Err(Error::NotInitialized));
    storage.set_campaign(campaign(2_500, 10_000));
    storage.set_milestone(0, milestone(0, MilestoneStatus::Released));
    storage.set_milestone(1, milestone(1, MilestoneStatus::Locked));
    assert_eq!(
        get_campaign_summary(&storage),
        Ok(CampaignSummary {
            creator: address(b'G'),
            goal_amount: 10_000,
            raised_amount: 2_500,
            remaining_to_goal: 7_500,
            progress_bps: 2_500,
            end_time: 1_700_000_000,
            status: CampaignStatus::Active,
            milestone_count: 2,
            milestones_released: 1,
            all_milestones_released: false,
            accepts_donations: true,
        })
    );
}

#[test]
fn summary_of_an_over_funded_and_fully_released_campaign() {
    let mut storage = CampaignStorage::new();
    storage.set_campaign(campaign(12_000, 10_000));
    storage.set_milestone(0, milestone(0, MilestoneStatus::Released));
    storage.set_milestone(1, milestone(1, MilestoneStatus::Released));
    let summary = get_campaign_summary(&storage).unwrap();
    assert_eq!(summary.remaining_to_goal, 0);
    assert_eq!(summary.progress_bps, 10_000);
    assert_eq!(summary.milestones_released, 2);
    assert!(summary.all_milestones_released);

    let of_milestones = get_milestone_summary(&storage).unwrap();
    assert_eq!(of_milestones.total, summary.milestone_count);
    assert_eq!(of_milestones.released, summary.milestones_released);
    assert_eq!((of_milestones.locked, of_milestones.unlocked), (0, 0));
    assert_eq!(of_milestones.total_pending_amount, 0);
    assert_eq!(of_milestones.next_pending_index, None);
}

#[test]
fn summary_of_a_campaign_with_large_amounts() {
    let mut storage = CampaignStorage::new();
    storage.set_campaign(campaign(18_446_744_073_709_551_616, 1_000));
    assert_eq!(get_campaign_summary(&storage).unwrap().progress_bps, 10_000);
    storage.set_campaign(campaign(1_000_000_000_000_000_000, 1_000_000_000_000_000_000));
    assert_eq!(get_campaign_summary(&storage).unwrap().progress_bps, 10_000);
    storage.set_campaign(campaign(0, 18_446_744_073_709_551_616));
    assert_eq!(get_campaign_summary(&storage).unwrap().progress_bps, 0);
}

#[test]
fn donations_are_taken_while_the_campaign_runs() {
    let mut record = campaign(0, 10);
    assert!(record.is_accepting_donations());
    record.status = CampaignStatus::GoalReached;
    assert!(record.is_accepting_donations());
    record.status = CampaignStatus::Ended;
    assert!(!record.is_accepting_donations());
    record.status = CampaignStatus::Cancelled;
    assert!(!record.is_accepting_donations());
}
