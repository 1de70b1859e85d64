//! The scrape plan: one end-to-end pass of "check index, conditionally
//! import, scrape".
//!
//! The plan is a state machine.  Each remote call it needs is handed out
//! as a [`PlanAction`]; the surrounding process performs the call and
//! hands the outcome back as a [`PlanEvent`].  Everything between two
//! remote calls — the idempotent recording of the observed snapshot, the
//! composition of the import intent, and the bookkeeping that follows an
//! import — happens inside [`ScrapePlan::step`], against the in-memory
//! store, and is verified.

pub mod import;
pub mod index;
pub mod scrape;

use vstd::prelude::*;
use vstd::string::*;

use crate::db::entity::{FailedImport, FailedImportView, IndexFile, IndexFileView, Source};
use crate::db::import::{has_failed_id, newest_active, FailedImports};
use crate::db::index::{has_hash, has_index_id, index_row_at, processed_view, queue_post, IndexFiles};
use crate::plan::import::{
    failed_view, failure_write, intent_composed, map_source_spec, prepare_import, process_result,
    reimport_write,
};
use crate::plan::scrape::make_scrape_intent;
use crate::proto::data;
use crate::proto::import::{ImportIntent, ImportIntentResult};
use crate::proto::scraping::{ScrapeIntent, ScrapeIntentResult};
use crate::settings::Service;

verus! {

/// Errors that may surface during a plan pass.  Each variant carries a
/// human-readable description of the underlying failure.
#[derive(Debug)]
pub enum PlanError {
    /// Failed to access the store.
    StorageError(String),
    /// Failed to reach an external RPC service.
    TransportError(String),
    /// An external RPC service answered with an error.
    ServiceError(String),
    /// The external HTTP service answered with an error.
    HttpError(String),
    /// Something unexpected happened.
    UnexpectedError(String),
}

/// Builds the URLs under which the indexer publishes its snapshots.
pub struct IndexURLBuilder {
    /// Base URL of the indexer service.
    pub base_url: String,
    /// The catalog source the built URLs pertain to.
    pub source: Source,
}

/// The URL path segment of a catalog source.
pub open spec fn source_path_of(s: Source) -> Seq<char> {
    match s {
        Source::Anidb => "anidb"@,
    }
}

/// The URL under which the newest snapshot descriptor is published.
pub open spec fn latest_url_text(b: IndexURLBuilder) -> Seq<char> {
    b.base_url@ + "/"@ + source_path_of(b.source) + "/latest"@
}

/// The URL under which the snapshot with the given fingerprint is
/// published.
pub open spec fn index_url_text(b: IndexURLBuilder, hash: Seq<char>) -> Seq<char> {
    b.base_url@ + "/"@ + source_path_of(b.source) + "/"@ + hash
}

impl IndexURLBuilder {
    /// Returns a new builder instance.
    pub fn new(base_url: String, source: Source) -> (r: IndexURLBuilder)
        ensures
            r.base_url@ == base_url@,
            r.source == source,
    {
        IndexURLBuilder { base_url, source }
    }

    /// Returns the catalog source for which the builder creates URLs.
    pub fn source(&self) -> (r: Source)
        ensures
            r == self.source,
    {
        self.source
    }

    /// Returns the URL path segment of the builder's source.
    fn source_path(&self) -> (r: &'static str)
        ensures
            r@ == source_path_of(self.source),
    {
        match self.source {
            Source::Anidb => "anidb",
        }
    }

    /// Returns the URL that describes the newest snapshot.
    pub fn latest(&self) -> (r: String)
        ensures
            r@ == latest_url_text(*self),
    {
        let r = self.base_url.clone().concat("/").concat(self.source_path()).concat("/latest");
        proof {
            assert(r@ =~= latest_url_text(*self));
        }
        r
    }

    /// Returns the URL of the snapshot a recorded index file describes.
    pub fn index(&self, file: &IndexFile) -> (r: String)
        ensures
            r@ == index_url_text(*self, file@.hash),
    {
        let r = self.base_url.clone().concat("/").concat(self.source_path()).concat("/").concat(
            file.hash.as_str(),
        );
        proof {
            assert(r@ =~= index_url_text(*self, file@.hash));
        }
        r
    }
}

/// Where a plan pass stands between two remote calls.
pub enum PlanState {
    /// No pass is under way.
    Start,
    /// The newest snapshot descriptor has been asked for.
    AwaitingIndex,
    /// The importer is working on `index`; `reimport` is the failed-import
    /// record whose ids were folded into the intent, if one was active.
    AwaitingImport { index: IndexFile, reimport: Option<FailedImport> },
    /// The scraper has been signalled.
    AwaitingScrape,
}

/// What the surrounding process reports back into the plan.
pub enum PlanEvent {
    /// A new pass begins.
    Begin,
    /// The indexer answered, or the fetch failed.
    IndexFetched(Result<index::NewIndexFile, PlanError>),
    /// The importer answered, or the call failed.
    ImportFinished(Result<ImportIntentResult, PlanError>),
    /// The scraper answered, or the call failed.
    ScrapeFinished(Result<ScrapeIntentResult, PlanError>),
}

/// What the surrounding process should do next.
pub enum PlanAction {
    /// Fetch the snapshot descriptor published under this URL.
    FetchIndex(String),
    /// Send this intent to the importer service.
    StartImport(ImportIntent),
    /// Send this intent to the scraper service.
    StartScraping(ScrapeIntent),
    /// The pass is over: true means more scraping work is believed
    /// available and another pass is welcome promptly, false means the
    /// caller may back off for a long interval.
    Finish(bool),
    /// The pass failed; re-running from scratch is always safe.
    Fail(PlanError),
}

/// Represents an end-to-end scraping run.
pub struct ScrapePlan {
    /// Configuration for external services.
    pub service_config: Service,
    /// URL builder for the indexer service.
    pub url_builder: IndexURLBuilder,
    /// Store of catalog snapshot records.
    pub index_files: IndexFiles,
    /// Store of failed-import records.
    pub failed_imports: FailedImports,
    /// Where the current pass stands.
    pub state: PlanState,
}

/// Both stores are left exactly as they were: what holds of every failed
/// pass, and of every step between two remote calls that writes nothing.
pub open spec fn stores_unchanged(pre: ScrapePlan, post: ScrapePlan) -> bool {
    &&& post.index_files@ == pre.index_files@
    &&& post.failed_imports@ == pre.failed_imports@
}

/// What a scrape intent must say: a fresh correlation id and the wire
/// value of the source to scrape.
pub open spec fn scrape_intent_composed(si: ScrapeIntent, source: Source) -> bool {
    &&& (match si.id {
        Some(u) => u.uuid@.len() == 16,
        None => false,
    })
    &&& si.source == data::wire_value_of(map_source_spec(source))
}

/// What applying the importer's answer does to the two stores: the
/// picked-up record is marked reimported, the skipped ids are recorded as
/// a fresh record, and the imported index file stops being pending.
pub open spec fn import_applied(
    pre: ScrapePlan,
    post: ScrapePlan,
    res: ImportIntentResult,
    index: IndexFile,
    reimport: Option<FailedImport>,
) -> bool {
    &&& exists|mid: Seq<FailedImportView>|
        reimport_write(pre.failed_imports@, mid, failed_view(reimport)) && failure_write(
            mid,
            post.failed_imports@,
            res.skipped_ids@,
            index@,
        )
    &&& ({
        let i = index_row_at(pre.index_files@, index@.id);
        &&& 0 <= i < pre.index_files@.len()
        &&& pre.index_files@[i].id == index@.id
        &&& exists|s: int|
            post.index_files@ == pre.index_files@.update(
                i,
                processed_view(pre.index_files@[i], s),
            )
    })
}

/// The full meaning of one [`ScrapePlan::step`] call, by the state the
/// pass stood in and the event handed back.
pub open spec fn step_post(
    pre: ScrapePlan,
    post: ScrapePlan,
    event: PlanEvent,
    action: PlanAction,
) -> bool {
    match (pre.state, event) {
        (PlanState::Start, PlanEvent::Begin) => {
            &&& stores_unchanged(pre, post)
            &&& post.state is AwaitingIndex
            &&& action matches PlanAction::FetchIndex(url) && url@ == latest_url_text(
                pre.url_builder,
            )
        },
        (PlanState::AwaitingIndex, PlanEvent::IndexFetched(resp)) => match resp {
            Err(e) => {
                &&& stores_unchanged(pre, post)
                &&& post.state is Start
                &&& action == PlanAction::Fail(e)
            },
            Ok(desc) => {
                if desc.source@ != "anidb"@ {
                    &&& stores_unchanged(pre, post)
                    &&& post.state is Start
                    &&& action matches PlanAction::Fail(PlanError::ServiceError(m)) && m@
                        == "failed to convert index source"@
                } else {
                    &&& post.failed_imports@ == pre.failed_imports@
                    &&& exists|row: IndexFileView|
                        {
                            &&& #[trigger] queue_post(
                                pre.index_files@,
                                post.index_files@,
                                row,
                                desc.hash@,
                                Source::Anidb,
                            )
                            &&& if row.pending {
                                &&& post.state matches PlanState::AwaitingImport {
                                    index,
                                    reimport,
                                } && index@ == row && (match reimport {
                                    Some(f) => newest_active(post.failed_imports@, row.source)
                                        == Some(f@),
                                    None => newest_active(post.failed_imports@, row.source)
                                        is None,
                                })
                                &&& action matches PlanAction::StartImport(intent)
                                    && intent_composed(
                                    intent,
                                    post.index_files@,
                                    post.failed_imports@,
                                    pre.url_builder,
                                    row,
                                )
                            } else {
                                &&& post.state is AwaitingScrape
                                &&& action matches PlanAction::StartScraping(si)
                                    && scrape_intent_composed(si, pre.url_builder.source)
                            }
                        }
                }
            },
        },
        (PlanState::AwaitingImport { index, reimport }, PlanEvent::ImportFinished(resp)) => match
            resp {
            Err(e) => {
                &&& stores_unchanged(pre, post)
                &&& post.state is Start
                &&& action == PlanAction::Fail(e)
            },
            Ok(res) => {
                &&& import_applied(pre, post, res, index, reimport)
                &&& post.state is AwaitingScrape
                &&& action matches PlanAction::StartScraping(si) && scrape_intent_composed(
                    si,
                    pre.url_builder.source,
                )
            },
        },
        (PlanState::AwaitingScrape, PlanEvent::ScrapeFinished(resp)) => match resp {
            Err(e) => {
                &&& stores_unchanged(pre, post)
                &&& post.state is Start
                &&& action == PlanAction::Fail(e)
            },
            Ok(res) => {
                &&& stores_unchanged(pre, post)
                &&& post.state is Start
                &&& action == PlanAction::Finish(res.may_continue)
            },
        },
        _ => {
            &&& stores_unchanged(pre, post)
            &&& post.state is Start
            &&& action matches PlanAction::Fail(PlanError::UnexpectedError(_))
        },
    }
}

impl ScrapePlan {
    /// Internal consistency of the plan: the stores are consistent, and
    /// whatever the state carries points into them.
    pub open spec fn wf(self) -> bool {
        &&& self.index_files.wf()
        &&& self.failed_imports.wf()
        &&& (match self.state {
            PlanState::AwaitingImport { index, reimport } => {
                &&& has_index_id(self.index_files@, index@.id)
                &&& (match reimport {
                    Some(f) => has_failed_id(self.failed_imports@, f@.id),
                    None => true,
                })
            },
            _ => true,
        })
    }

    /// Creates a new scraping plan instance with no pass under way.
    pub fn new(
        service_config: Service,
        url_builder: IndexURLBuilder,
        index_files: IndexFiles,
        failed_imports: FailedImports,
    ) -> (r: ScrapePlan)
        requires
            index_files.wf(),
            failed_imports.wf(),
        ensures
            r.wf(),
            r.service_config == service_config,
            r.url_builder == url_builder,
            r.index_files == index_files,
            r.failed_imports == failed_imports,
            r.state is Start,
    {
        ScrapePlan {
            service_config,
            url_builder,
            index_files,
            failed_imports,
            state: PlanState::Start,
        }
    }

    /// Advances the pass by one transition.
    ///
    /// The caller performs the returned action — a remote call, or none —
    /// and hands its outcome back as the next event.  Any error aborts
    /// the pass with [`PlanAction::Fail`] and writes nothing, so
    /// re-running from the start is always safe; the pass ends with
    /// [`PlanAction::Finish`] carrying the scraper's more-work signal.
    pub fn step(&mut self, event: PlanEvent) -> (r: PlanAction)
        requires
            old(self).wf(),
            old(self).index_files.stamp() < u64::MAX as int,
            old(self).failed_imports.stamp() + 2 <= u64::MAX as int,
        ensures
            final(self).wf(),
            final(self).service_config == old(self).service_config,
            final(self).url_builder == old(self).url_builder,
            old(self).index_files.stamp() <= final(self).index_files.stamp() <= old(
                self,
            ).index_files.stamp() + 1,
            old(self).failed_imports.stamp() <= final(self).failed_imports.stamp() <= old(
                self,
            ).failed_imports.stamp() + 2,
            step_post(*old(self), *final(self), event, r),
    {
        let mut prev = PlanState::Start;
        core::mem::swap(&mut self.state, &mut prev);
        match (prev, event) {
            (PlanState::Start, PlanEvent::Begin) => {
                self.state = PlanState::AwaitingIndex;
                PlanAction::FetchIndex(self.url_builder.latest())
            },
            (PlanState::AwaitingIndex, PlanEvent::IndexFetched(resp)) => match resp {
                Err(e) => PlanAction::Fail(e),
                Ok(desc) => {
                    let ghost pre_rows = self.index_files@;
                    match index::record_latest(&mut self.index_files, &desc) {
                        Err(e) => PlanAction::Fail(e),
                        Ok(row) => {
                            proof {
                                if has_hash(pre_rows, desc.hash@) {
                                    let i = choose|i: int|
                                        0 <= i < pre_rows.len() && pre_rows[i].hash == desc.hash@
                                            && row@ == pre_rows[i];
                                    assert(self.index_files@[i] == row@);
                                } else {
                                    assert(self.index_files@[pre_rows.len() as int] == row@);
                                }
                                assert(has_index_id(self.index_files@, row@.id));
                            }
                            if row.pending {
                                let (intent, reimport) = prepare_import(
                                    &self.index_files,
                                    &self.failed_imports,
                                    &self.url_builder,
                                    &row,
                                );
                                self.state = PlanState::AwaitingImport { index: row, reimport };
                                PlanAction::StartImport(intent)
                            } else {
                                self.state = PlanState::AwaitingScrape;
                                PlanAction::StartScraping(
                                    make_scrape_intent(self.url_builder.source()),
                                )
                            }
                        },
                    }
                },
            },
            (PlanState::AwaitingImport { index, reimport }, PlanEvent::ImportFinished(resp)) =>
                match resp {
                Err(e) => PlanAction::Fail(e),
                Ok(res) => {
                    process_result(
                        &mut self.index_files,
                        &mut self.failed_imports,
                        &res,
                        index,
                        reimport,
                    );
                    self.state = PlanState::AwaitingScrape;
                    PlanAction::StartScraping(make_scrape_intent(self.url_builder.source()))
                },
            },
            (PlanState::AwaitingScrape, PlanEvent::ScrapeFinished(resp)) => match resp {
                Err(e) => PlanAction::Fail(e),
                Ok(res) => PlanAction::Finish(res.may_continue),
            },
            _ => PlanAction::Fail(
                PlanError::UnexpectedError(
                    String::from_str("plan state and event do not agree"),
                ),
            ),
        }
    }
}

} // verus!
