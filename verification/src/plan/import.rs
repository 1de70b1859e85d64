//! The import-index step: composing the import intent and applying the
//! importer's answer to the store.
//!
//! The remote call itself is the surrounding process's business.  What
//! goes into the intent — the ids to reimport, the URLs of the new and the
//! previous snapshot — and what the answer does to the store are decided
//! here.

use vstd::prelude::*;

use super::{index_url_text, IndexURLBuilder, PlanError};
use crate::db::entity::{FailedImport, FailedImportView, IndexFile, IndexFileView, Source};
use crate::db::import::{
    failed_row_at, has_failed_id, marked_view, newest_active, FailedImports,
};
use crate::db::index::{
    has_index_id, index_row_at, newest_processed, processed_view, IndexFiles,
};
use crate::proto::data;
use crate::proto::import::{ImportIntent, ImportIntentResult};
use crate::proto::uuid::Uuid;

verus! {

/// The wire-level source a domain source is spoken of as.
pub open spec fn map_source_spec(s: Source) -> data::Source {
    match s {
        Source::Anidb => data::Source::Anidb,
    }
}

/// Converts a domain catalog source to its wire-level counterpart.
pub fn map_source(s: Source) -> (r: data::Source)
    ensures
        r == map_source_spec(s),
{
    match s {
        Source::Anidb => data::Source::Anidb,
    }
}

/// The view of the failed-import record picked up for reimport, if any.
pub open spec fn failed_view(o: Option<FailedImport>) -> Option<FailedImportView> {
    match o {
        Some(f) => Some(f@),
        None => None,
    }
}

/// What an import intent must say, given the stores it was composed
/// against: a fresh correlation id, the wire value of the index file's
/// source, the URL of the new snapshot, the URL of the newest previously
/// processed snapshot (empty when none exists), and the title ids of the
/// active failed-import record (none when none is active).
pub open spec fn intent_composed(
    intent: ImportIntent,
    index_rows: Seq<IndexFileView>,
    failed_rows: Seq<FailedImportView>,
    builder: IndexURLBuilder,
    index_file: IndexFileView,
) -> bool {
    &&& (match intent.id {
        Some(u) => u.uuid@.len() == 16,
        None => false,
    })
    &&& intent.source == data::wire_value_of(map_source_spec(index_file.source))
    &&& intent.new_index_url@ == index_url_text(builder, index_file.hash)
    &&& (match newest_processed(index_rows) {
        Some(prev) => intent.old_index_url@ == index_url_text(builder, prev.hash),
        None => intent.old_index_url@ == Seq::<char>::empty(),
    })
    &&& (match newest_active(failed_rows, index_file.source) {
        Some(f) => intent.reimport_ids@ == f.title_ids,
        None => intent.reimport_ids@ == Seq::<i32>::empty(),
    })
}

/// Composes the intent for importing `index_file` and looks up the
/// failed-import record whose ids it folds in.
///
/// The intent is a pure function of the stores but for its fresh
/// correlation id, so a pass that fails before any write recomposes the
/// same reimport ids when it is re-run.  The returned record is the one
/// that must be marked reimported once the importer has answered.
pub fn prepare_import(
    index_files: &IndexFiles,
    failed_imports: &FailedImports,
    url_builder: &IndexURLBuilder,
    index_file: &IndexFile,
) -> (r: (ImportIntent, Option<FailedImport>))
    requires
        index_files.wf(),
        failed_imports.wf(),
        index_file@.pending,
    ensures
        (match r.1 {
            Some(f) => newest_active(failed_imports@, index_file@.source) == Some(f@)
                && has_failed_id(failed_imports@, f@.id),
            None => newest_active(failed_imports@, index_file@.source) is None,
        }),
        intent_composed(r.0, index_files@, failed_imports@, *url_builder, index_file@),
{
    let reimport = failed_imports.with_source(index_file.source);
    let old_index = index_files.latest_processed(index_file);

    let reimport_ids: Vec<i32> = match &reimport {
        Some(f) => crate::db::entity::copy_ids(f.title_ids.as_slice()),
        None => Vec::new(),
    };
    proof {
        assert(reimport_ids@ =~= (match newest_active(failed_imports@, index_file@.source) {
            Some(f) => f.title_ids,
            None => Seq::<i32>::empty(),
        }));
    }

    let old_index_url: String = match &old_index {
        Some(prev) => url_builder.index(prev),
        None => String::new(),
    };

    let intent = ImportIntent {
        id: Some(Uuid::new()),
        source: map_source(index_file.source).wire_value(),
        new_index_url: url_builder.index(index_file),
        old_index_url,
        reimport_ids,
    };
    (intent, reimport)
}

/// Law: the import intent is a function of the stores it was composed
/// against, but for its fresh correlation id.  A pass that fails after the
/// import call succeeded but before any write leaves the stores untouched,
/// so the re-run composes an intent with the same reimport ids and the
/// same snapshot URLs: no skipped-ids record is lost or duplicated.
pub proof fn lemma_intent_resumable(
    p1: ImportIntent,
    p2: ImportIntent,
    index_rows: Seq<IndexFileView>,
    failed_rows: Seq<FailedImportView>,
    builder: IndexURLBuilder,
    index_file: IndexFileView,
)
    requires
        intent_composed(p1, index_rows, failed_rows, builder, index_file),
        intent_composed(p2, index_rows, failed_rows, builder, index_file),
    ensures
        p1.reimport_ids@ == p2.reimport_ids@,
        p1.new_index_url@ == p2.new_index_url@,
        p1.old_index_url@ == p2.old_index_url@,
        p1.source == p2.source,
{
}

/// What marking the picked-up record does to the failed-import rows:
/// nothing when none was picked up, otherwise the one row carrying its
/// identifier is marked reimported and freshly stamped.
pub open spec fn reimport_write(
    pre: Seq<FailedImportView>,
    post: Seq<FailedImportView>,
    reimport: Option<FailedImportView>,
) -> bool {
    match reimport {
        None => post == pre,
        Some(f) => exists|i: int, s: int|
            0 <= i < pre.len() && pre[i].id == f.id && pre[i].updated_at <= s && post == pre.update(
                i,
                marked_view(pre[i], s),
            ),
    }
}

/// What recording the importer's skipped ids does to the failed-import
/// rows: nothing when nothing was skipped, otherwise one fresh active
/// record tied to the just-imported index file is appended.
pub open spec fn failure_write(
    pre: Seq<FailedImportView>,
    post: Seq<FailedImportView>,
    skipped: Seq<i32>,
    index_file: IndexFileView,
) -> bool {
    if skipped.len() == 0 {
        post == pre
    } else {
        exists|g: FailedImportView|
            post == pre.push(g) && g.index_id == index_file.id && g.source == index_file.source
                && g.title_ids == skipped && !g.reimported && (forall|j: int|
                0 <= j < pre.len() ==> #[trigger] pre[j].created_at < g.created_at && pre[j].id
                    != g.id)
    }
}

/// Applies the importer's answer to the store, in the order that keeps a
/// crash between writes retryable: the picked-up record is marked
/// reimported first, skipped ids are recorded second, and the index file
/// stops being pending last.
///
/// Returns the index-file row as the store now holds it.
pub fn process_result(
    index_files: &mut IndexFiles,
    failed_imports: &mut FailedImports,
    res: &ImportIntentResult,
    index_file: IndexFile,
    reimport: Option<FailedImport>,
) -> (r: IndexFile)
    requires
        old(index_files).wf(),
        old(failed_imports).wf(),
        old(index_files).stamp() < u64::MAX as int,
        old(failed_imports).stamp() + 2 <= u64::MAX as int,
        has_index_id(old(index_files)@, index_file@.id),
        (match reimport {
            Some(f) => has_failed_id(old(failed_imports)@, f@.id),
            None => true,
        }),
    ensures
        final(index_files).wf(),
        final(failed_imports).wf(),
        final(index_files).stamp() == old(index_files).stamp() + 1,
        final(failed_imports).stamp() == old(failed_imports).stamp() + (if reimport is Some {
            1int
        } else {
            0
        }) + (if res.skipped_ids@.len() > 0 {
            1int
        } else {
            0
        }),
        // the failed-import rows see the reimport mark, then the new record
        exists|mid: Seq<FailedImportView>|
            reimport_write(old(failed_imports)@, mid, failed_view(reimport)) && failure_write(
                mid,
                final(failed_imports)@,
                res.skipped_ids@,
                index_file@,
            ),
        // the index file stops being pending; every other row is untouched
        r@.pending == false,
        ({
            let i = index_row_at(old(index_files)@, index_file@.id);
            &&& 0 <= i < old(index_files)@.len()
            &&& old(index_files)@[i].id == index_file@.id
            &&& final(index_files)@ == old(index_files)@.update(i, r@)
            &&& r@ == processed_view(old(index_files)@[i], r@.updated_at)
        }),
        forall|j: int| 0 <= j < old(index_files)@.len() && !old(index_files)@[j].pending
            ==> !final(index_files)@[j].pending,
{
    let ghost pre = failed_imports@;
    match &reimport {
        Some(f) => {
            let ghost fv = f@;
            let marked = failed_imports.mark_reimported(f.duplicate());
            proof {
                let k = failed_row_at(pre, fv.id);
                assert(0 <= k < pre.len() && pre[k].id == fv.id && pre[k].updated_at
                    <= marked@.updated_at && failed_imports@ == pre.update(
                    k,
                    marked_view(pre[k], marked@.updated_at),
                ));
            }
        },
        None => {},
    }
    let ghost mid = failed_imports@;
    proof {
        assert(reimport_write(pre, mid, failed_view(reimport)));
    }

    if res.skipped_ids.len() > 0 {
        let created = failed_imports.create(&index_file, res.skipped_ids.as_slice());
        proof {
            assert(failed_imports@ == mid.push(created@) && created@.index_id == index_file@.id
                && created@.source == index_file@.source && created@.title_ids
                == res.skipped_ids@ && !created@.reimported && (forall|j: int|
                0 <= j < mid.len() ==> #[trigger] mid[j].created_at < created@.created_at
                    && mid[j].id != created@.id));
        }
    }
    proof {
        assert(failure_write(mid, failed_imports@, res.skipped_ids@, index_file@));
    }

    index_files.mark_processed(index_file)
}

} // verus!
