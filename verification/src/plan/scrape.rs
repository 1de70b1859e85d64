//! The scrape-data step: signalling the scraper and keeping its answer.
//!
//! The remote call itself is the surrounding process's business; the
//! intent it sends and the meaning of the answer are decided here.

use vstd::prelude::*;

use crate::db::entity::Source;
use crate::plan::import::{map_source, map_source_spec};
use crate::proto::data;
use crate::proto::scraping::{ScrapeIntent, ScrapeIntentResult};
use crate::proto::uuid::Uuid;

verus! {

/// Composes a scrape intent for the given source, with a fresh
/// correlation id.
pub fn make_scrape_intent(source: Source) -> (r: ScrapeIntent)
    ensures
        (match r.id {
            Some(u) => u.uuid@.len() == 16,
            None => false,
        }),
        r.source == data::wire_value_of(map_source_spec(source)),
{
    ScrapeIntent { id: Some(Uuid::new()), source: map_source(source).wire_value() }
}

/// Asks the scraper service to (continue to) process pending work.
pub struct ScrapeData {
    /// From where to scrape data.
    pub source: Source,
    /// Whether the scraper believes more work remains.
    pub should_scrape: bool,
}

impl ScrapeData {
    /// Creates a new step instance.  Until the scraper has answered once,
    /// more work is assumed to remain.
    pub fn new(source: Source) -> (r: ScrapeData)
        ensures
            r.source == source,
            r.should_scrape == true,
    {
        ScrapeData { source, should_scrape: true }
    }

    /// Returns `true` if there is data to scrape, `false` otherwise.
    ///
    /// The value reflects the most recent answer and may be out of date;
    /// it is a suggestion, not a guarantee.  Signalling the scraper again
    /// is safe either way.
    pub fn should_scrape(&self) -> (r: bool)
        ensures
            r == self.should_scrape,
    {
        self.should_scrape
    }

    /// Composes the intent that signals the scraper.
    pub fn make_intent(&self) -> (r: ScrapeIntent)
        ensures
            (match r.id {
                Some(u) => u.uuid@.len() == 16,
                None => false,
            }),
            r.source == data::wire_value_of(map_source_spec(self.source)),
    {
        make_scrape_intent(self.source)
    }

    /// Keeps the scraper's answer as the new suggestion.
    pub fn record_response(&mut self, res: &ScrapeIntentResult)
        ensures
            final(self).source == old(self).source,
            final(self).should_scrape == res.may_continue,
    {
        self.should_scrape = res.may_continue;
    }
}

} // verus!
