//! Tests of the two repositories: idempotent queueing, the pending
//! transition, and the active failed-import bookkeeping.

use satelit_scheduler::db::entity::{FailedImport, IndexFile, Source};
use satelit_scheduler::db::import::FailedImports;
use satelit_scheduler::db::index::IndexFiles;

fn pending_probe() -> IndexFile {
    IndexFile {
        id: 424242,
        source: Source::Anidb,
        hash: String::from("probe"),
        pending: true,
        created_at: 0,
        updated_at: 0,
    }
}

#[test]
fn queue_creates_pending_row() {
    let mut store = IndexFiles::new();
    let row = store.queue("abc", Source::Anidb);
    assert_eq!(row.hash, "abc");
    assert!(row.pending);
    assert_eq!(row.created_at, row.updated_at);
    assert_eq!(store.len(), 1);
}

#[test]
fn queue_is_idempotent() {
    let mut store = IndexFiles::new();
    let first = store.queue("abc", Source::Anidb);
    let second = store.queue("abc", Source::Anidb);
    assert_eq!(store.len(), 1);
    assert_eq!(second.id, first.id);
    assert_eq!(second.hash, first.hash);
    assert_eq!(second.pending, first.pending);
    assert_eq!(second.created_at, first.created_at);
    assert_eq!(second.updated_at, first.updated_at);
}

#[test]
fn queue_keeps_processed_state_on_requeue() {
    let mut store = IndexFiles::new();
    let row = store.queue("abc", Source::Anidb);
    let processed = store.mark_processed(row);
    assert!(!processed.pending);
    let again = store.queue("abc", Source::Anidb);
    assert_eq!(again.id, processed.id);
    assert!(!again.pending, "requeue must not resurrect pending");
    assert_eq!(store.len(), 1);
}

#[test]
fn distinct_hashes_create_distinct_rows() {
    let mut store = IndexFiles::new();
    let a = store.queue("abc", Source::Anidb);
    let b = store.queue("def", Source::Anidb);
    assert_ne!(a.id, b.id);
    assert_eq!(store.len(), 2);
}

#[test]
fn pending_flips_once_and_stays() {
    let mut store = IndexFiles::new();
    let row = store.queue("abc", Source::Anidb);
    assert!(row.pending);
    let processed = store.mark_processed(row);
    assert!(!processed.pending);
    // a second mark is a no-op by value
    let processed_again = store.mark_processed(processed);
    assert!(!processed_again.pending);
    let still = store.queue("abc", Source::Anidb);
    assert!(!still.pending);
}

#[test]
fn latest_processed_resolves_candidate_directly() {
    let mut store = IndexFiles::new();
    let row = store.queue("abc", Source::Anidb);
    let processed = store.mark_processed(row);
    let got = store.latest_processed(&processed).expect("already processed");
    assert_eq!(got.id, processed.id);
}

#[test]
fn latest_processed_empty_store_is_none() {
    let store = IndexFiles::new();
    assert!(store.latest_processed(&pending_probe()).is_none());
}

#[test]
fn latest_processed_picks_most_recently_updated() {
    let mut store = IndexFiles::new();
    let a = store.queue("abc", Source::Anidb);
    let b = store.queue("def", Source::Anidb);
    store.mark_processed(a);
    let b_done = store.mark_processed(b);
    let got = store.latest_processed(&pending_probe()).expect("two processed rows");
    assert_eq!(got.id, b_done.id, "the most recently updated row wins");
}

fn probe_index(store: &mut IndexFiles, hash: &str) -> IndexFile {
    store.queue(hash, Source::Anidb)
}

#[test]
fn with_source_empty_is_none() {
    let failed = FailedImports::new();
    assert!(failed.with_source(Source::Anidb).is_none());
}

#[test]
fn create_then_with_source_returns_record() {
    let mut index_store = IndexFiles::new();
    let mut failed = FailedImports::new();
    let index = probe_index(&mut index_store, "abc");
    let rec = failed.create(&index, &[10, 20]);
    assert_eq!(rec.index_id, index.id);
    assert_eq!(rec.title_ids, vec![10, 20]);
    assert!(!rec.reimported);

    let got = failed.with_source(Source::Anidb).expect("one active record");
    assert_eq!(got.id, rec.id);
    assert_eq!(got.title_ids, vec![10, 20]);
}

#[test]
fn reimported_record_is_not_surfaced() {
    let mut index_store = IndexFiles::new();
    let mut failed = FailedImports::new();
    let index = probe_index(&mut index_store, "abc");
    let rec = failed.create(&index, &[10, 20]);
    let marked = failed.mark_reimported(rec);
    assert!(marked.reimported);
    assert!(failed.with_source(Source::Anidb).is_none());
    assert_eq!(failed.len(), 1, "the record stays stored, only inactive");
}

#[test]
fn with_source_tie_break_prefers_newest() {
    let mut index_store = IndexFiles::new();
    let mut failed = FailedImports::new();
    let older_index = probe_index(&mut index_store, "abc");
    let newer_index = probe_index(&mut index_store, "def");
    let older: FailedImport = failed.create(&older_index, &[1]);
    let newer: FailedImport = failed.create(&newer_index, &[2, 3]);
    assert!(older.created_at < newer.created_at);

    let got = failed.with_source(Source::Anidb).expect("two active records");
    assert_eq!(got.id, newer.id, "the newer record wins");
    assert_eq!(got.title_ids, vec![2, 3]);
}

#[test]
fn newer_record_marked_reimported_surfaces_nothing_older() {
    // the accepted design limitation: older active records are not
    // surfaced once the newest one has been retired
    let mut index_store = IndexFiles::new();
    let mut failed = FailedImports::new();
    let a = probe_index(&mut index_store, "abc");
    let b = probe_index(&mut index_store, "def");
    let _older = failed.create(&a, &[1]);
    let newer = failed.create(&b, &[2]);
    failed.mark_reimported(newer);
    let got = failed.with_source(Source::Anidb).expect("older record is still active");
    assert_eq!(got.title_ids, vec![1]);
}

#[test]
fn create_with_empty_ids_is_stored() {
    let mut index_store = IndexFiles::new();
    let mut failed = FailedImports::new();
    let index = probe_index(&mut index_store, "abc");
    let rec = failed.create(&index, &[]);
    assert!(rec.title_ids.is_empty());
    assert_eq!(failed.len(), 1);
}
