//! Read-only views of a milestone-based fundraising campaign.
pub mod amounts;
pub mod answers;
pub mod host;
pub mod laws;
pub mod milestones;
pub mod readings;
pub mod storage;
pub mod types;
pub mod views;
