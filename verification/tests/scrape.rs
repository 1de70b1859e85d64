//! Tests of the scrape-data step.

use satelit_scheduler::db::entity::Source;
use satelit_scheduler::plan::scrape::ScrapeData;
use satelit_scheduler::plan::IndexURLBuilder;
use satelit_scheduler::proto::scraping::ScrapeIntentResult;

#[test]
fn new_step_assumes_more_work() {
    let step = ScrapeData::new(Source::Anidb);
    assert!(step.should_scrape());
}

#[test]
fn response_flag_is_kept() {
    let mut step = ScrapeData::new(Source::Anidb);
    step.record_response(&ScrapeIntentResult { may_continue: false });
    assert!(!step.should_scrape());
    // asking again is always safe, and the flag may flip back
    step.record_response(&ScrapeIntentResult { may_continue: true });
    assert!(step.should_scrape());
}

#[test]
fn intent_carries_source_and_fresh_id() {
    let step = ScrapeData::new(Source::Anidb);
    let intent = step.make_intent();
    assert_eq!(intent.source, 1);
    assert_eq!(intent.id.expect("a correlation id").as_slice().len(), 16);
    let second = step.make_intent();
    assert_eq!(second.source, 1);
}

#[test]
fn url_builder_source_round_trip() {
    let builder = IndexURLBuilder::new(String::from("http://indexer"), Source::Anidb);
    assert_eq!(builder.source(), Source::Anidb);
    assert_eq!(builder.latest(), "http://indexer/anidb/latest");
}
