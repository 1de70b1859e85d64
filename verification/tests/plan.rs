//! End-to-end scenario tests of the plan state machine.

use satelit_scheduler::db::entity::{IndexFile, Source};
use satelit_scheduler::db::import::FailedImports;
use satelit_scheduler::db::index::IndexFiles;
use satelit_scheduler::plan::index::NewIndexFile;
use satelit_scheduler::plan::{
    IndexURLBuilder, PlanAction, PlanError, PlanEvent, ScrapePlan,
};
use satelit_scheduler::proto::import::{ImportIntent, ImportIntentResult};
use satelit_scheduler::proto::scraping::ScrapeIntentResult;
use satelit_scheduler::proto::uuid::Uuid;
use satelit_scheduler::settings::{RemoteServiceConfig, Service};

fn service_config() -> Service {
    Service::new(
        RemoteServiceConfig::new(String::from("http://indexer"), None, None),
        RemoteServiceConfig::new(String::from("http://importer"), None, None),
        RemoteServiceConfig::new(String::from("http://scraper"), None, None),
    )
}

fn new_plan() -> ScrapePlan {
    ScrapePlan::new(
        service_config(),
        IndexURLBuilder::new(String::from("http://indexer"), Source::Anidb),
        IndexFiles::new(),
        FailedImports::new(),
    )
}

fn descriptor(hash: &str) -> NewIndexFile {
    NewIndexFile {
        id: String::from("1"),
        hash: String::from(hash),
        source: String::from("anidb"),
    }
}

fn import_ok(skipped: Vec<i32>) -> PlanEvent {
    PlanEvent::ImportFinished(Ok(ImportIntentResult { id: Some(Uuid::new()), skipped_ids: skipped }))
}

fn scrape_ok(may_continue: bool) -> PlanEvent {
    PlanEvent::ScrapeFinished(Ok(ScrapeIntentResult { may_continue }))
}

fn expect_fetch(action: PlanAction) -> String {
    match action {
        PlanAction::FetchIndex(url) => url,
        other => panic!("expected a fetch action, got {:?}", kind_of(&other)),
    }
}

fn expect_import(action: PlanAction) -> ImportIntent {
    match action {
        PlanAction::StartImport(intent) => intent,
        other => panic!("expected an import action, got {:?}", kind_of(&other)),
    }
}

fn expect_scrape(action: PlanAction) {
    match action {
        PlanAction::StartScraping(intent) => {
            assert_eq!(intent.source, 1, "the wire value of the known source");
            assert_eq!(intent.id.expect("a correlation id").as_slice().len(), 16);
        },
        other => panic!("expected a scrape action, got {:?}", kind_of(&other)),
    }
}

fn expect_finish(action: PlanAction) -> bool {
    match action {
        PlanAction::Finish(more) => more,
        other => panic!("expected the pass to finish, got {:?}", kind_of(&other)),
    }
}

fn kind_of(action: &PlanAction) -> &'static str {
    match action {
        PlanAction::FetchIndex(_) => "FetchIndex",
        PlanAction::StartImport(_) => "StartImport",
        PlanAction::StartScraping(_) => "StartScraping",
        PlanAction::Finish(_) => "Finish",
        PlanAction::Fail(_) => "Fail",
    }
}

/// Runs one full pass: fetch, optional import, scrape.  Returns the
/// overall more-work signal.
fn run_pass(plan: &mut ScrapePlan, hash: &str, skipped: Vec<i32>, may_continue: bool) -> bool {
    expect_fetch(plan.step(PlanEvent::Begin));
    let action = plan.step(PlanEvent::IndexFetched(Ok(descriptor(hash))));
    let action = match action {
        PlanAction::StartImport(_) => plan.step(import_ok(skipped)),
        other => other,
    };
    expect_scrape(action);
    expect_finish(plan.step(scrape_ok(may_continue)))
}

fn pending_probe() -> IndexFile {
    IndexFile {
        id: 424242,
        source: Source::Anidb,
        hash: String::from("probe"),
        pending: true,
        created_at: 0,
        updated_at: 0,
    }
}

#[test]
fn scenario_new_snapshot_is_imported() {
    // indexer reports hash "abc" and the store has no prior row: the row
    // is created pending and the pass proceeds to import
    let mut plan = new_plan();
    let url = expect_fetch(plan.step(PlanEvent::Begin));
    assert_eq!(url, "http://indexer/anidb/latest");

    let intent = expect_import(plan.step(PlanEvent::IndexFetched(Ok(descriptor("abc")))));
    assert_eq!(intent.new_index_url, "http://indexer/anidb/abc");
    assert_eq!(intent.old_index_url, "", "no snapshot was ever processed");
    assert!(intent.reimport_ids.is_empty(), "no failed import is active");
    assert_eq!(intent.source, 1);
    assert_eq!(intent.id.expect("a correlation id").as_slice().len(), 16);
}

#[test]
fn scenario_known_snapshot_skips_import() {
    // the same hash reported again on the next poll: the existing row is
    // no longer pending, so only the scrape step runs
    let mut plan = new_plan();
    assert!(run_pass(&mut plan, "abc", vec![], true));

    expect_fetch(plan.step(PlanEvent::Begin));
    let action = plan.step(PlanEvent::IndexFetched(Ok(descriptor("abc"))));
    expect_scrape(action);
    assert!(!expect_finish(plan.step(scrape_ok(false))));
    assert_eq!(plan.index_files.len(), 1, "re-observing creates no second row");
}

#[test]
fn scenario_skipped_ids_are_recorded() {
    // the importer skips ids 10 and 20: a new active record ties them to
    // the imported index file, whose pending flag clears
    let mut plan = new_plan();
    assert!(run_pass(&mut plan, "abc", vec![10, 20], true));

    let imported = plan
        .index_files
        .latest_processed(&pending_probe())
        .expect("the snapshot finished importing");
    assert_eq!(imported.hash, "abc");
    assert!(!imported.pending);

    let record = plan.failed_imports.with_source(Source::Anidb).expect("an active record");
    assert_eq!(record.title_ids, vec![10, 20]);
    assert!(!record.reimported);
    assert_eq!(record.index_id, imported.id);
}

#[test]
fn scenario_reimport_folds_in_and_retires_record() {
    // a later import run finds the active record, folds its ids into the
    // new intent, and retires it on success
    let mut plan = new_plan();
    assert!(run_pass(&mut plan, "abc", vec![10, 20], true));

    expect_fetch(plan.step(PlanEvent::Begin));
    let intent = expect_import(plan.step(PlanEvent::IndexFetched(Ok(descriptor("def")))));
    assert_eq!(intent.reimport_ids, vec![10, 20]);
    assert_eq!(intent.new_index_url, "http://indexer/anidb/def");
    assert_eq!(intent.old_index_url, "http://indexer/anidb/abc");

    expect_scrape(plan.step(import_ok(vec![])));
    assert!(expect_finish(plan.step(scrape_ok(true))));

    assert!(
        plan.failed_imports.with_source(Source::Anidb).is_none(),
        "the record was marked reimported"
    );
    assert_eq!(plan.failed_imports.len(), 1, "the record is retired, not deleted");
}

#[test]
fn scenario_no_more_work_backs_off() {
    // the scraper answers may_continue false: the pass reports false and
    // the caller may back off
    let mut plan = new_plan();
    assert!(!run_pass(&mut plan, "abc", vec![], false));
}

#[test]
fn failed_import_call_leaves_stores_untouched() {
    // the import call fails after the record and the previous snapshot
    // were read but before any write: re-running composes the same
    // reimport ids, and the record is still active
    let mut plan = new_plan();
    assert!(run_pass(&mut plan, "abc", vec![10, 20], true));

    expect_fetch(plan.step(PlanEvent::Begin));
    let first = expect_import(plan.step(PlanEvent::IndexFetched(Ok(descriptor("def")))));
    let action = plan.step(PlanEvent::ImportFinished(Err(PlanError::TransportError(
        String::from("connection reset"),
    ))));
    assert!(matches!(action, PlanAction::Fail(PlanError::TransportError(_))));

    // the record is still active and a fresh pass reissues the same ids
    let record = plan.failed_imports.with_source(Source::Anidb).expect("still active");
    assert_eq!(record.title_ids, vec![10, 20]);
    assert_eq!(plan.failed_imports.len(), 1, "nothing was lost or duplicated");

    expect_fetch(plan.step(PlanEvent::Begin));
    let second = expect_import(plan.step(PlanEvent::IndexFetched(Ok(descriptor("def")))));
    assert_eq!(second.reimport_ids, first.reimport_ids);
    assert_eq!(second.new_index_url, first.new_index_url);
    assert_eq!(second.old_index_url, first.old_index_url);
}

#[test]
fn unknown_source_tag_is_a_service_error() {
    let mut plan = new_plan();
    expect_fetch(plan.step(PlanEvent::Begin));
    let action = plan.step(PlanEvent::IndexFetched(Ok(NewIndexFile {
        id: String::from("1"),
        hash: String::from("abc"),
        source: String::from("vndb"),
    })));
    match action {
        PlanAction::Fail(PlanError::ServiceError(m)) => {
            assert_eq!(m, "failed to convert index source");
        },
        other => panic!("expected a service error, got {:?}", kind_of(&other)),
    }
    assert_eq!(plan.index_files.len(), 0, "nothing was recorded");
}

#[test]
fn fetch_error_aborts_the_pass() {
    let mut plan = new_plan();
    expect_fetch(plan.step(PlanEvent::Begin));
    let action = plan.step(PlanEvent::IndexFetched(Err(PlanError::HttpError(String::from(
        "status 503",
    )))));
    assert!(matches!(action, PlanAction::Fail(PlanError::HttpError(_))));
    // the next pass starts cleanly
    expect_fetch(plan.step(PlanEvent::Begin));
}

#[test]
fn scrape_error_aborts_the_pass() {
    let mut plan = new_plan();
    expect_fetch(plan.step(PlanEvent::Begin));
    let action = plan.step(PlanEvent::IndexFetched(Ok(descriptor("abc"))));
    expect_import(action);
    expect_scrape(plan.step(import_ok(vec![])));
    let action = plan.step(PlanEvent::ScrapeFinished(Err(PlanError::ServiceError(
        String::from("unavailable"),
    ))));
    assert!(matches!(action, PlanAction::Fail(PlanError::ServiceError(_))));
}

#[test]
fn mismatched_event_is_unexpected() {
    let mut plan = new_plan();
    let action = plan.step(scrape_ok(true));
    assert!(matches!(action, PlanAction::Fail(PlanError::UnexpectedError(_))));
    // the plan is back at the start and a pass can begin
    expect_fetch(plan.step(PlanEvent::Begin));
}
