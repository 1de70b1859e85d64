//! Entities stored by the persistent store.

use vstd::prelude::*;
use vstd::string::*;

verus! {

/// Catalog origin of an index file.  A closed enumeration with a single
/// known variant; the indexer's JSON tag and the importer's wire value both
/// map onto it through narrow translation functions.
#[derive(Clone, Copy, Debug, PartialEq, Eq, Structural)]
pub enum Source {
    Anidb,
}

impl Source {
    /// Maps the indexer's JSON source tag onto the internal enumeration.
    /// Only the single known tag is accepted; anything else is rejected.
    pub fn from_tag(tag: &str) -> (r: Option<Source>)
        ensures
            tag@ == "anidb"@ ==> r == Some(Source::Anidb),
            tag@ != "anidb"@ ==> r is None,
    {
        let t = String::from_str(tag);
        let known = String::from_str("anidb");
        if t == known {
            Some(Source::Anidb)
        } else {
            None
        }
    }
}

/// Mathematical image of an [`IndexFile`] row.
#[verifier::ext_equal]
pub ghost struct IndexFileView {
    pub id: int,
    pub source: Source,
    pub hash: Seq<char>,
    pub pending: bool,
    pub created_at: int,
    pub updated_at: int,
}

/// A catalog snapshot record.
///
/// `hash` is the content fingerprint of the snapshot and the natural dedup
/// key: the store keeps at most one row per distinct hash.  `pending` is
/// true from creation until the snapshot has been successfully imported,
/// and never becomes true again after that.  Identifiers and timestamps are
/// surrogate values assigned by the store: `id` is unique per row, and the
/// timestamps come from the store's logical clock.
pub struct IndexFile {
    pub id: u64,
    pub source: Source,
    pub hash: String,
    pub pending: bool,
    pub created_at: u64,
    pub updated_at: u64,
}

impl View for IndexFile {
    type V = IndexFileView;

    open spec fn view(&self) -> IndexFileView {
        IndexFileView {
            id: self.id as int,
            source: self.source,
            hash: self.hash@,
            pending: self.pending,
            created_at: self.created_at as int,
            updated_at: self.updated_at as int,
        }
    }
}

impl IndexFile {
    /// Returns a row equal to this one under the view.
    pub fn duplicate(&self) -> (r: IndexFile)
        ensures
            r@ == self@,
    {
        IndexFile {
            id: self.id,
            source: self.source,
            hash: self.hash.clone(),
            pending: self.pending,
            created_at: self.created_at,
            updated_at: self.updated_at,
        }
    }
}

/// Mathematical image of a [`FailedImport`] row.
#[verifier::ext_equal]
pub ghost struct FailedImportView {
    pub id: int,
    pub index_id: int,
    pub source: Source,
    pub title_ids: Seq<i32>,
    pub reimported: bool,
    pub created_at: int,
    pub updated_at: int,
}

/// A record of catalog item identifiers that a prior import attempt could
/// not ingest, tied to the index file being imported at the time.
///
/// `reimported` is false while the record is "active", meaning the next
/// import attempt for its source will resubmit `title_ids`; it flips to
/// true exactly once, when those ids have been resubmitted.  `source` holds
/// the origin of the owning index file, recorded at creation; it stands in
/// for the relational join with the index-file table when the active record
/// of a source is looked up.
pub struct FailedImport {
    pub id: u64,
    pub index_id: u64,
    pub source: Source,
    pub title_ids: Vec<i32>,
    pub reimported: bool,
    pub created_at: u64,
    pub updated_at: u64,
}

impl View for FailedImport {
    type V = FailedImportView;

    open spec fn view(&self) -> FailedImportView {
        FailedImportView {
            id: self.id as int,
            index_id: self.index_id as int,
            source: self.source,
            title_ids: self.title_ids@,
            reimported: self.reimported,
            created_at: self.created_at as int,
            updated_at: self.updated_at as int,
        }
    }
}

/// Returns a copy of a list of title identifiers.
pub fn copy_ids(ids: &[i32]) -> (r: Vec<i32>)
    ensures
        r@ == ids@,
{
    let mut out: Vec<i32> = Vec::new();
    let mut i: usize = 0;
    while i < ids.len()
        invariant
            i <= ids@.len(),
            out@ == ids@.subrange(0, i as int),
        decreases ids@.len() - i,
    {
        out.push(ids[i]);
        i = i + 1;
        proof {
            assert(out@ =~= ids@.subrange(0, i as int));
        }
    }
    proof {
        assert(out@ =~= ids@);
    }
    out
}

impl FailedImport {
    /// Returns a row equal to this one under the view.
    pub fn duplicate(&self) -> (r: FailedImport)
        ensures
            r@ == self@,
    {
        FailedImport {
            id: self.id,
            index_id: self.index_id,
            source: self.source,
            title_ids: copy_ids(self.title_ids.as_slice()),
            reimported: self.reimported,
            created_at: self.created_at,
            updated_at: self.updated_at,
        }
    }
}

} // verus!
