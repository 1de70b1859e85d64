//! Messages of the importer service's unary start-import call.

use vstd::prelude::*;

use crate::proto::uuid::Uuid;

verus! {

/// Asks the importer to ingest a catalog snapshot.
pub struct ImportIntent {
    /// Correlation identifier of this intent.
    pub id: Option<Uuid>,
    /// Wire value of the catalog source the snapshot belongs to.
    pub source: i32,
    /// URL of the snapshot to import.
    pub new_index_url: String,
    /// URL of the previously imported snapshot; empty when none exists.
    pub old_index_url: String,
    /// Identifiers of catalog items that should be imported again.
    pub reimport_ids: Vec<i32>,
}

/// The importer's answer to an [`ImportIntent`].
pub struct ImportIntentResult {
    /// Correlation identifier of the intent answered.
    pub id: Option<Uuid>,
    /// Identifiers of catalog items that were not imported.
    pub skipped_ids: Vec<i32>,
}

} // verus!
