//! Messages of the scraper service's unary start-scraping call.

use vstd::prelude::*;

use crate::proto::uuid::Uuid;

verus! {

/// Asks the scraper to (continue to) process pending work.
pub struct ScrapeIntent {
    /// Correlation identifier of this intent.
    pub id: Option<Uuid>,
    /// Wire value of the catalog source to scrape.
    pub source: i32,
}

/// The scraper's answer to a [`ScrapeIntent`].
pub struct ScrapeIntentResult {
    /// True when more work remains and another intent is welcome soon.
    pub may_continue: bool,
}

} // verus!
