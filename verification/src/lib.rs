//! Scheduler core for a catalog-synchronization agent.
//!
//! The agent repeatedly checks a remote indexer for new catalog snapshots,
//! hands new snapshots to a remote importer service, and then signals a
//! remote scraper service to process the resulting work.  This crate holds
//! the verified core: the idempotent persistence layer, the reimport
//! bookkeeping, and the plan state machine that sequences the three steps.
//! The surrounding process (HTTP, RPC and database transport, the run loop)
//! drives these types from outside.

pub mod db;
pub mod plan;
pub mod proto;
pub mod settings;
