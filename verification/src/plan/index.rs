//! The update-index step: recording the snapshot the indexer reports.
//!
//! Fetching and decoding the descriptor is the surrounding process's
//! business; what to make of a decoded descriptor is decided here.

use vstd::prelude::*;
use vstd::string::*;

use super::PlanError;
use crate::db::entity::{IndexFile, Source};
use crate::db::index::{queue_post, IndexFiles};

verus! {

/// The newest snapshot, as the indexer describes it.
pub struct NewIndexFile {
    /// Identifier of the snapshot at the indexer.
    pub id: String,
    /// Content fingerprint of the snapshot.
    pub hash: String,
    /// Tag of the catalog source the snapshot belongs to.
    pub source: String,
}

/// Records the descriptor's snapshot into the store, idempotently.
///
/// The source tag is mapped onto the internal enumeration first; an
/// unrecognized tag is a service error, not silently ignored.  On success
/// the returned row is the one the store now holds for the descriptor's
/// fingerprint: fresh and pending if the snapshot is new, the existing
/// row unchanged if it was observed before.
pub fn record_latest(store: &mut IndexFiles, descriptor: &NewIndexFile) -> (r: Result<
    IndexFile,
    PlanError,
>)
    requires
        old(store).wf(),
        old(store).stamp() < u64::MAX as int,
    ensures
        final(store).wf(),
        old(store).stamp() <= final(store).stamp() <= old(store).stamp() + 1,
        descriptor.source@ == "anidb"@ ==> (match r {
            Ok(f) => queue_post(old(store)@, final(store)@, f@, descriptor.hash@, Source::Anidb),
            Err(_) => false,
        }),
        descriptor.source@ != "anidb"@ ==> final(store)@ == old(store)@ && (match r {
            Ok(_) => false,
            Err(PlanError::ServiceError(m)) => m@ == "failed to convert index source"@,
            Err(_) => false,
        }),
{
    let source = match Source::from_tag(descriptor.source.as_str()) {
        Some(src) => src,
        None => {
            return Err(PlanError::ServiceError(String::from_str(
                "failed to convert index source",
            )));
        },
    };
    Ok(store.queue(descriptor.hash.as_str(), source))
}

} // verus!
