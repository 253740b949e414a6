pub mod deployment;
pub mod reconciliation;
