//! Orchestration logic for bulk, cross-repository migrations: the per-target
//! step pipeline, the bounded scheduler, the campaign state and the
//! pull-request reconciliation rules, each with a machine-checked contract.
pub mod campaign;
pub mod followup;
pub mod github;
pub mod logging;
pub mod migration;
pub mod models;
pub mod pull_request;
pub mod reconcile;
pub mod report;
pub mod scheduler;
pub mod steps;
pub mod text;
pub mod workspace;
