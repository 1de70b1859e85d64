//! Repository of failed-import records.
//!
//! The store models the relational table as an in-memory sequence of rows
//! in creation order, together with a logical clock that stamps every
//! write.  For each source at most one record is "active" in the intended
//! use: the next import attempt picks up the newest active record,
//! resubmits its title ids, and marks it reimported exactly once.

use vstd::prelude::*;

use crate::db::entity::{copy_ids, FailedImport, FailedImportView, IndexFile, Source};

verus! {

/// A record that the next import attempt for `src` should pick up.
pub open spec fn active(f: FailedImportView, src: Source) -> bool {
    !f.reimported && f.source == src
}

/// All row identifiers are distinct.
pub open spec fn failed_ids_distinct(rows: Seq<FailedImportView>) -> bool {
    forall|i: int, j: int|
        0 <= i < rows.len() && 0 <= j < rows.len() && i != j ==> rows[i].id != rows[j].id
}

/// Rows stand in creation order: later rows carry strictly newer
/// creation stamps.
pub open spec fn created_increasing(rows: Seq<FailedImportView>) -> bool {
    forall|i: int, j: int|
        0 <= i < j < rows.len() ==> #[trigger] rows[i].created_at < #[trigger] rows[j].created_at
}

/// Some row carries the identifier `id`.
pub open spec fn has_failed_id(rows: Seq<FailedImportView>, id: int) -> bool {
    exists|i: int| 0 <= i < rows.len() && rows[i].id == id
}

/// The index of the row carrying `id`; meaningful when such a row exists,
/// and unambiguous when identifiers are distinct.
pub open spec fn failed_row_at(rows: Seq<FailedImportView>, id: int) -> int {
    choose|i: int| 0 <= i < rows.len() && rows[i].id == id
}

/// The row `f` once it has been marked reimported with the stamp `s`.
pub open spec fn marked_view(f: FailedImportView, s: int) -> FailedImportView {
    FailedImportView { reimported: true, updated_at: s, ..f }
}

/// The active record for `src` with the newest creation stamp, if any:
/// the last active row, rows standing in creation order.
pub open spec fn newest_active(rows: Seq<FailedImportView>, src: Source) -> Option<
    FailedImportView,
>
    decreases rows.len(),
{
    if rows.len() == 0 {
        None
    } else if active(rows.last(), src) {
        Some(rows.last())
    } else {
        newest_active(rows.drop_last(), src)
    }
}

/// Law: the record surfaced for a source is the active one with the
/// newest creation stamp; ties cannot arise, creation stamps being
/// strictly increasing.  When nothing is surfaced, no record for the
/// source is active.
pub proof fn lemma_newest_active_is_newest(rows: Seq<FailedImportView>, src: Source)
    requires
        created_increasing(rows),
    ensures
        match newest_active(rows, src) {
            Some(f) => exists|i: int| 0 <= i < rows.len() && rows[i] == f && active(f, src)
                && forall|j: int| 0 <= j < rows.len() && #[trigger] active(rows[j], src)
                    ==> rows[j].created_at <= f.created_at,
            None => forall|j: int| 0 <= j < rows.len() ==> !(#[trigger] active(rows[j], src)),
        },
    decreases rows.len(),
{
    if rows.len() == 0 {
    } else if active(rows.last(), src) {
        let f = rows.last();
        let n = rows.len() - 1;
        assert(rows[n] == f && active(f, src));
        assert forall|j: int| 0 <= j < rows.len() && #[trigger] active(rows[j], src)
            implies rows[j].created_at <= f.created_at by {
            if j < n {
                assert(rows[j].created_at < rows[n].created_at);
            }
        }
    } else {
        let rest = rows.drop_last();
        assert(created_increasing(rest)) by {
            assert forall|a: int, b: int| 0 <= a < b < rest.len()
                implies #[trigger] rest[a].created_at < #[trigger] rest[b].created_at by {
                assert(rest[a] == rows[a] && rest[b] == rows[b]);
            }
        }
        lemma_newest_active_is_newest(rest, src);
        match newest_active(rest, src) {
            Some(f) => {
                let i = choose|i: int| 0 <= i < rest.len() && rest[i] == f && active(f, src)
                    && forall|j: int| 0 <= j < rest.len() && #[trigger] active(rest[j], src)
                        ==> rest[j].created_at <= f.created_at;
                assert(rows[i] == f);
                assert forall|j: int| 0 <= j < rows.len() && #[trigger] active(rows[j], src)
                    implies rows[j].created_at <= f.created_at by {
                    if j < rest.len() {
                        assert(rest[j] == rows[j] && active(rest[j], src));
                    }
                }
            },
            None => {
                assert forall|j: int| 0 <= j < rows.len()
                    implies !(#[trigger] active(rows[j], src)) by {
                    if j < rest.len() {
                        assert(rest[j] == rows[j]);
                        assert(!active(rest[j], src));
                    }
                }
            },
        }
    }
}

/// Law: a store in which no record for `src` is active surfaces nothing
/// for `src`.
pub proof fn lemma_newest_active_none(rows: Seq<FailedImportView>, src: Source)
    requires
        forall|j: int| 0 <= j < rows.len() ==> !(#[trigger] active(rows[j], src)),
    ensures
        newest_active(rows, src) is None,
    decreases rows.len(),
{
    if rows.len() > 0 {
        let rest = rows.drop_last();
        assert forall|j: int| 0 <= j < rest.len()
            implies !(#[trigger] active(rest[j], src)) by {
            assert(rest[j] == rows[j]);
        }
        lemma_newest_active_none(rest, src);
    }
}

/// Law (single active record per source, creation half): right after a
/// record active for `src` is appended, it is the record surfaced for
/// `src`, whatever the store held before.
pub proof fn lemma_created_is_newest_active(
    rows: Seq<FailedImportView>,
    f: FailedImportView,
    src: Source,
)
    requires
        active(f, src),
    ensures
        newest_active(rows.push(f), src) == Some(f),
{
    assert(rows.push(f).last() == f);
}

/// Law (single active record per source, reimport half): marking the only
/// active record for `src` as reimported leaves no active record for
/// `src`, so nothing is surfaced until a newer record is created.
pub proof fn lemma_reimport_clears_active(
    rows: Seq<FailedImportView>,
    i: int,
    marked: FailedImportView,
    src: Source,
)
    requires
        0 <= i < rows.len(),
        forall|j: int| 0 <= j < rows.len() && #[trigger] active(rows[j], src) ==> j == i,
        marked.reimported,
    ensures
        newest_active(rows.update(i, marked), src) is None,
{
    let rows2 = rows.update(i, marked);
    assert forall|j: int| 0 <= j < rows2.len()
        implies !(#[trigger] active(rows2[j], src)) by {
        if j != i {
            assert(rows2[j] == rows[j]);
            if active(rows[j], src) {
                assert(j == i);
            }
        }
    }
    lemma_newest_active_none(rows2, src);
}

/// Repository of [`FailedImport`] rows.
pub struct FailedImports {
    rows: Vec<FailedImport>,
    clock: u64,
    next_id: u64,
}

impl View for FailedImports {
    type V = Seq<FailedImportView>;

    closed spec fn view(&self) -> Seq<FailedImportView> {
        Seq::new(self.rows@.len(), |i: int| self.rows@[i]@)
    }
}

impl FailedImports {
    /// The value of the logical clock: strictly newer than every stamp of
    /// every stored row.
    pub closed spec fn stamp(&self) -> int {
        self.clock as int
    }

    /// Internal consistency of the repository.
    pub closed spec fn wf(&self) -> bool {
        &&& failed_ids_distinct(self@)
        &&& created_increasing(self@)
        &&& forall|i: int| 0 <= i < self@.len()
            ==> #[trigger] self@[i].created_at <= self@[i].updated_at
        &&& forall|i: int| 0 <= i < self@.len()
            ==> #[trigger] self@[i].updated_at < self.clock as int
        &&& forall|i: int| 0 <= i < self@.len() ==> #[trigger] self@[i].id < self.next_id as int
        &&& self.next_id <= self.clock
    }

    /// Creates an empty repository.
    pub fn new() -> (r: FailedImports)
        ensures
            r.wf(),
            r@ == Seq::<FailedImportView>::empty(),
            r.stamp() == 0,
    {
        let r = FailedImports { rows: Vec::new(), clock: 0, next_id: 0 };
        proof {
            assert(r@ =~= Seq::<FailedImportView>::empty());
        }
        r
    }

    /// Returns the number of stored rows.
    pub fn len(&self) -> (r: usize)
        ensures
            r == self@.len(),
    {
        self.rows.len()
    }

    /// Returns the value of the logical clock.
    pub fn stamp_value(&self) -> (r: u64)
        ensures
            r as int == self.stamp(),
    {
        self.clock
    }

    /// Records the title ids that an import attempt could not ingest,
    /// tied to the index file that was being imported.
    ///
    /// The new record is active (`reimported == false`) and carries a
    /// creation stamp strictly newer than every stored row's, so it is the
    /// one the next import attempt for this source will pick up.
    pub fn create(&mut self, index: &IndexFile, ids: &[i32]) -> (r: FailedImport)
        requires
            old(self).wf(),
            old(self).stamp() < u64::MAX as int,
        ensures
            final(self).wf(),
            final(self).stamp() == old(self).stamp() + 1,
            final(self)@ == old(self)@.push(r@),
            r@.index_id == index@.id,
            r@.source == index@.source,
            r@.title_ids == ids@,
            r@.reimported == false,
            r@.created_at == r@.updated_at,
            forall|j: int| 0 <= j < old(self)@.len()
                ==> old(self)@[j].created_at < r@.created_at && old(self)@[j].id != r@.id,
    {
        let row = FailedImport {
            id: self.next_id,
            index_id: index.id,
            source: index.source,
            title_ids: copy_ids(ids),
            reimported: false,
            created_at: self.clock,
            updated_at: self.clock,
        };
        let r = row.duplicate();
        let ghost pre = self@;
        self.rows.push(row);
        self.next_id = self.next_id + 1;
        self.clock = self.clock + 1;
        proof {
            assert(self@ =~= pre.push(r@));
            assert forall|a: int, b: int|
                0 <= a < self@.len() && 0 <= b < self@.len() && a != b
                implies self@[a].id != self@[b].id by {
                if a < pre.len() && b < pre.len() {
                    assert(pre[a] == self@[a] && pre[b] == self@[b]);
                } else if a < pre.len() {
                    assert(self@[b] == r@ && self@[a] == pre[a]);
                    assert(pre[a].id < old(self).next_id as int);
                } else {
                    assert(self@[a] == r@ && self@[b] == pre[b]);
                    assert(pre[b].id < old(self).next_id as int);
                }
            }
            assert forall|a: int, b: int| 0 <= a < b < self@.len()
                implies #[trigger] self@[a].created_at < #[trigger] self@[b].created_at by {
                assert(self@[a] == if a < pre.len() { pre[a] } else { r@ });
                assert(self@[b] == if b < pre.len() { pre[b] } else { r@ });
                if b == pre.len() {
                    assert(pre[a].created_at <= pre[a].updated_at);
                    assert(pre[a].updated_at < old(self).stamp());
                }
            }
        }
        r
    }

    /// Returns the active record for `src` with the newest creation
    /// stamp, or `None` when every record for `src` has been reimported.
    /// Older active records, should any exist, are not surfaced.
    pub fn with_source(&self, src: Source) -> (r: Option<FailedImport>)
        requires
            self.wf(),
        ensures
            match r {
                Some(f) => newest_active(self@, src) == Some(f@) && has_failed_id(self@, f@.id),
                None => newest_active(self@, src) is None,
            },
    {
        proof {
            lemma_newest_active_is_newest(self@, src);
        }
        let n = self.rows.len();
        let mut best: Option<FailedImport> = None;
        let mut i: usize = 0;
        while i < n
            invariant
                self.wf(),
                n == self.rows@.len(),
                i <= n,
                (match best {
                    Some(b) => newest_active(self@.take(i as int), src) == Some(b@),
                    None => newest_active(self@.take(i as int), src) is None,
                }),
            decreases n - i,
        {
            let ghost prefix = self@.take(i as int);
            let row = &self.rows[i];
            proof {
                assert(self@.take(i + 1).drop_last() =~= prefix);
                assert(self@.take(i + 1).last() == self@[i as int]);
            }
            if !row.reimported && source_matches(row, src) {
                best = Some(row.duplicate());
            }
            i = i + 1;
        }
        proof {
            assert(self@.take(n as int) =~= self@);
        }
        best
    }

    /// Marks the row carrying `failed`'s identifier as reimported: its
    /// title ids have been resubmitted and it must not be picked up again.
    /// Every other field and every other row is left unchanged.
    pub fn mark_reimported(&mut self, failed: FailedImport) -> (r: FailedImport)
        requires
            old(self).wf(),
            old(self).stamp() < u64::MAX as int,
            has_failed_id(old(self)@, failed@.id),
        ensures
            final(self).wf(),
            final(self).stamp() == old(self).stamp() + 1,
            r@.reimported == true,
            ({
                let i = failed_row_at(old(self)@, failed@.id);
                &&& 0 <= i < old(self)@.len()
                &&& old(self)@[i].id == failed@.id
                &&& final(self)@ == old(self)@.update(i, r@)
                &&& r@ == marked_view(old(self)@[i], r@.updated_at)
                &&& old(self)@[i].updated_at <= r@.updated_at
            }),
            // reimported moves only from false to true
            forall|j: int| 0 <= j < old(self)@.len() && old(self)@[j].reimported
                ==> final(self)@[j].reimported,
    {
        let n = self.rows.len();
        let mut i: usize = 0;
        while i < n
            invariant
                old(self) == self,
                self.wf(),
                self.stamp() < u64::MAX as int,
                n == self.rows@.len(),
                i <= n,
                has_failed_id(self@, failed@.id),
                forall|j: int| 0 <= j < i ==> self@[j].id != failed@.id,
            decreases n - i,
        {
            if self.rows[i].id == failed.id {
                let ghost pre = self@;
                let stamp = self.clock;
                self.rows[i].reimported = true;
                self.rows[i].updated_at = stamp;
                self.clock = self.clock + 1;
                let r = self.rows[i].duplicate();
                proof {
                    assert(self@ =~= pre.update(i as int, r@));
                    let k = failed_row_at(pre, failed@.id);
                    assert(0 <= k < pre.len() && pre[k].id == failed@.id);
                    assert(k == i as int);
                    assert(r@ =~= marked_view(pre[i as int], r@.updated_at));
                    assert forall|a: int| 0 <= a < self@.len() implies
                        self@[a].created_at <= self@[a].updated_at
                            && self@[a].updated_at < self.clock as int
                            && self@[a].id < self.next_id as int by {
                        assert(pre[a].created_at <= pre[a].updated_at);
                        assert(pre[a].updated_at < stamp as int);
                        assert(pre[a].id < self.next_id as int);
                        if a == i {
                            assert(self@[a] == r@);
                        } else {
                            assert(self@[a] == pre[a]);
                        }
                    }
                    assert forall|a: int, b: int|
                        0 <= a < self@.len() && 0 <= b < self@.len() && a != b
                        implies self@[a].id != self@[b].id by {
                        assert(self@[a] == if a == i { r@ } else { pre[a] });
                        assert(self@[b] == if b == i { r@ } else { pre[b] });
                    }
                    assert forall|a: int, b: int| 0 <= a < b < self@.len()
                        implies #[trigger] self@[a].created_at
                            < #[trigger] self@[b].created_at by {
                        assert(self@[a] == if a == i { r@ } else { pre[a] });
                        assert(self@[b] == if b == i { r@ } else { pre[b] });
                        assert(pre[a].created_at < pre[b].created_at);
                    }
                }
                return r;
            }
            i = i + 1;
        }
        proof {
            assert(false);
        }
        unreached()
    }
}

/// True when the row's recorded source equals `src`.
fn source_matches(row: &FailedImport, src: Source) -> (r: bool)
    ensures
        r == (row@.source == src),
{
    match (row.source, src) {
        (Source::Anidb, Source::Anidb) => true,
    }
}

} // verus!
