//! Repository of catalog snapshot records.
//!
//! The store models the relational table as an in-memory sequence of rows
//! together with a logical clock that stamps every write.  Inserts are
//! idempotent on the snapshot hash, and the pending flag of a row moves
//! from true to false exactly once.

use vstd::prelude::*;
use vstd::string::*;

use crate::db::entity::{IndexFile, IndexFileView, Source};

verus! {

/// All row identifiers are distinct.
pub open spec fn index_ids_distinct(rows: Seq<IndexFileView>) -> bool {
    forall|i: int, j: int|
        0 <= i < rows.len() && 0 <= j < rows.len() && i != j ==> rows[i].id != rows[j].id
}

/// All snapshot hashes are distinct: at most one row per fingerprint.
pub open spec fn index_hashes_distinct(rows: Seq<IndexFileView>) -> bool {
    forall|i: int, j: int|
        0 <= i < rows.len() && 0 <= j < rows.len() && i != j ==> rows[i].hash != rows[j].hash
}

/// All update stamps are distinct, so "most recently updated" is unambiguous.
pub open spec fn index_updates_distinct(rows: Seq<IndexFileView>) -> bool {
    forall|i: int, j: int|
        0 <= i < rows.len() && 0 <= j < rows.len() && i != j
            ==> rows[i].updated_at != rows[j].updated_at
}

/// Some row carries the hash `h`.
pub open spec fn has_hash(rows: Seq<IndexFileView>, h: Seq<char>) -> bool {
    exists|i: int| 0 <= i < rows.len() && rows[i].hash == h
}

/// Some row carries the identifier `id`.
pub open spec fn has_index_id(rows: Seq<IndexFileView>, id: int) -> bool {
    exists|i: int| 0 <= i < rows.len() && rows[i].id == id
}

/// The index of the row carrying `id`; meaningful when such a row exists,
/// and unambiguous when identifiers are distinct.
pub open spec fn index_row_at(rows: Seq<IndexFileView>, id: int) -> int {
    choose|i: int| 0 <= i < rows.len() && rows[i].id == id
}

/// The row `f` once it has been marked processed with the stamp `s`.
pub open spec fn processed_view(f: IndexFileView, s: int) -> IndexFileView {
    IndexFileView { pending: false, updated_at: s, ..f }
}

/// The row's stamps are newer than every stamp in `rows`, and its
/// identifier is unused there.
pub open spec fn fresh_index_row(rows: Seq<IndexFileView>, r: IndexFileView) -> bool {
    forall|j: int| 0 <= j < rows.len()
        ==> rows[j].created_at < r.created_at && rows[j].updated_at < r.updated_at
            && rows[j].id != r.id
}

/// What [`IndexFiles::queue`] does to the stored rows: a no-op returning
/// the existing row when the hash is already present, an insert of a fresh
/// pending row otherwise.
pub open spec fn queue_post(
    pre: Seq<IndexFileView>,
    post: Seq<IndexFileView>,
    r: IndexFileView,
    h: Seq<char>,
    src: Source,
) -> bool {
    if has_hash(pre, h) {
        &&& post == pre
        &&& exists|i: int| 0 <= i < pre.len() && pre[i].hash == h && r == pre[i]
    } else {
        &&& post == pre.push(r)
        &&& r.hash == h
        &&& r.source == src
        &&& r.pending == true
        &&& r.created_at == r.updated_at
        &&& fresh_index_row(pre, r)
    }
}

/// The row with `pending == false` and the newest update stamp, if any.
/// This is the "previous snapshot" that a diff-style import runs against.
pub open spec fn newest_processed(rows: Seq<IndexFileView>) -> Option<IndexFileView>
    decreases rows.len(),
{
    if rows.len() == 0 {
        None
    } else {
        let rest = newest_processed(rows.drop_last());
        let l = rows.last();
        if l.pending {
            rest
        } else {
            match rest {
                None => Some(l),
                Some(b) => if b.updated_at < l.updated_at {
                    Some(l)
                } else {
                    Some(b)
                },
            }
        }
    }
}

/// Law: the previous-snapshot reference is the processed row with the
/// newest update stamp; ties cannot arise, update stamps being distinct.
/// When there is none, no row has ever finished import.
pub proof fn lemma_newest_processed_is_newest(rows: Seq<IndexFileView>)
    requires
        index_updates_distinct(rows),
    ensures
        match newest_processed(rows) {
            Some(f) => exists|i: int| 0 <= i < rows.len() && rows[i] == f && !f.pending
                && forall|j: int| 0 <= j < rows.len() && !(#[trigger] rows[j]).pending
                    ==> rows[j].updated_at <= f.updated_at,
            None => forall|j: int| 0 <= j < rows.len() ==> (#[trigger] rows[j]).pending,
        },
    decreases rows.len(),
{
    if rows.len() == 0 {
    } else {
        let rest = rows.drop_last();
        let l = rows.last();
        let n = rows.len() - 1;
        assert(index_updates_distinct(rest)) by {
            assert forall|a: int, b: int|
                0 <= a < rest.len() && 0 <= b < rest.len() && a != b
                implies rest[a].updated_at != rest[b].updated_at by {
                assert(rest[a] == rows[a] && rest[b] == rows[b]);
            }
        }
        lemma_newest_processed_is_newest(rest);
        match newest_processed(rows) {
            Some(f) => {
                assert forall|j: int| 0 <= j < rows.len() && !(#[trigger] rows[j]).pending
                    implies rows[j].updated_at <= f.updated_at by {
                    if j < n {
                        assert(rest[j] == rows[j]);
                        if !l.pending {
                            assert(match newest_processed(rest) {
                                Some(b) => rest[j].updated_at <= b.updated_at,
                                None => false,
                            });
                        }
                    }
                }
                if f != l {
                    let i = choose|i: int| 0 <= i < rest.len() && rest[i] == f && !f.pending
                        && forall|j: int| 0 <= j < rest.len() && !(#[trigger] rest[j]).pending
                            ==> rest[j].updated_at <= f.updated_at;
                    assert(rows[i] == f);
                } else {
                    assert(rows[n] == f);
                }
            },
            None => {
                assert forall|j: int| 0 <= j < rows.len()
                    implies (#[trigger] rows[j]).pending by {
                    if j < n {
                        assert(rest[j] == rows[j]);
                    }
                }
            },
        }
    }
}

/// Law: queueing is idempotent.  When a hash is first recorded into a
/// store that does not yet carry it, recording the same hash again stores
/// nothing: the store keeps exactly one row with that hash, and the second
/// call returns the original row unchanged, original `pending` value
/// included.
pub proof fn lemma_queue_idempotent(
    pre: Seq<IndexFileView>,
    mid: Seq<IndexFileView>,
    post: Seq<IndexFileView>,
    r1: IndexFileView,
    r2: IndexFileView,
    h: Seq<char>,
    src1: Source,
    src2: Source,
)
    requires
        !has_hash(pre, h),
        queue_post(pre, mid, r1, h, src1),
        queue_post(mid, post, r2, h, src2),
    ensures
        post == mid,
        r2 == r1,
        forall|i: int, j: int|
            0 <= i < post.len() && 0 <= j < post.len()
                && post[i].hash == h && post[j].hash == h ==> i == j,
{
    assert(mid == pre.push(r1));
    assert(mid[pre.len() as int] == r1);
    assert(has_hash(mid, h));
    let i = choose|i: int| 0 <= i < mid.len() && mid[i].hash == h && r2 == mid[i];
    assert(i == pre.len() as int);
    assert forall|a: int, b: int|
        0 <= a < post.len() && 0 <= b < post.len()
            && post[a].hash == h && post[b].hash == h implies a == b by {
        assert(post == mid);
        if a < pre.len() {
            assert(mid[a] == pre[a]);
        }
        if b < pre.len() {
            assert(mid[b] == pre[b]);
        }
    }
}

/// Repository of [`IndexFile`] rows.
pub struct IndexFiles {
    rows: Vec<IndexFile>,
    clock: u64,
    next_id: u64,
}

impl View for IndexFiles {
    type V = Seq<IndexFileView>;

    closed spec fn view(&self) -> Seq<IndexFileView> {
        Seq::new(self.rows@.len(), |i: int| self.rows@[i]@)
    }
}

impl IndexFiles {
    /// The value of the logical clock: strictly newer than every stamp of
    /// every stored row.
    pub closed spec fn stamp(&self) -> int {
        self.clock as int
    }

    /// Internal consistency of the repository.
    pub closed spec fn wf(&self) -> bool {
        &&& index_ids_distinct(self@)
        &&& index_hashes_distinct(self@)
        &&& index_updates_distinct(self@)
        &&& forall|i: int| 0 <= i < self@.len()
            ==> #[trigger] self@[i].created_at <= self@[i].updated_at
        &&& forall|i: int| 0 <= i < self@.len()
            ==> #[trigger] self@[i].updated_at < self.clock as int
        &&& forall|i: int| 0 <= i < self@.len() ==> #[trigger] self@[i].id < self.next_id as int
        &&& self.next_id <= self.clock
    }

    /// Creates an empty repository.
    pub fn new() -> (r: IndexFiles)
        ensures
            r.wf(),
            r@ == Seq::<IndexFileView>::empty(),
            r.stamp() == 0,
    {
        let r = IndexFiles { rows: Vec::new(), clock: 0, next_id: 0 };
        proof {
            assert(r@ =~= Seq::<IndexFileView>::empty());
        }
        r
    }

    /// Returns the number of stored rows.
    pub fn len(&self) -> (r: usize)
        ensures
            r == self@.len(),
    {
        self.rows.len()
    }

    /// Returns the value of the logical clock.
    pub fn stamp_value(&self) -> (r: u64)
        ensures
            r as int == self.stamp(),
    {
        self.clock
    }

    /// Records a snapshot fingerprint, idempotently.
    ///
    /// If no row carries `new_hash`, a fresh row with `pending == true` is
    /// inserted and returned.  If a row already carries it, the store is
    /// left untouched and that row is returned unchanged, original
    /// `pending` value included.  This is the sole idempotency guard
    /// against re-observing the same snapshot.
    pub fn queue(&mut self, new_hash: &str, src: Source) -> (r: IndexFile)
        requires
            old(self).wf(),
            old(self).stamp() < u64::MAX as int,
        ensures
            final(self).wf(),
            queue_post(old(self)@, final(self)@, r@, new_hash@, src),
            final(self).stamp() == old(self).stamp() + (if has_hash(old(self)@, new_hash@) {
                0
            } else {
                1int
            }),
            // pending moves only from true to false, and rows are never lost
            old(self)@.len() <= final(self)@.len(),
            forall|j: int| 0 <= j < old(self)@.len()
                ==> final(self)@[j] == old(self)@[j],
    {
        let h = String::from_str(new_hash);
        let n = self.rows.len();
        let mut i: usize = 0;
        while i < n
            invariant
                old(self) == self,
                self.wf(),
                self.stamp() < u64::MAX as int,
                n == self.rows@.len(),
                i <= n,
                h@ == new_hash@,
                forall|j: int| 0 <= j < i ==> self@[j].hash != new_hash@,
            decreases n - i,
        {
            if self.rows[i].hash == h {
                proof {
                    assert(self@[i as int].hash == new_hash@);
                }
                return self.rows[i].duplicate();
            }
            i = i + 1;
        }
        proof {
            assert(!has_hash(self@, new_hash@));
        }
        let row = IndexFile {
            id: self.next_id,
            source: src,
            hash: h,
            pending: true,
            created_at: self.clock,
            updated_at: self.clock,
        };
        let r = row.duplicate();
        let ghost pre = self@;
        self.rows.push(row);
        self.next_id = self.next_id + 1;
        self.clock = self.clock + 1;
        proof {
            assert(self@ =~= pre.push(r@));
            assert forall|a: int, b: int|
                0 <= a < self@.len() && 0 <= b < self@.len() && a != b
                implies self@[a].id != self@[b].id
                    && self@[a].hash != self@[b].hash
                    && self@[a].updated_at != self@[b].updated_at by {
                if a < pre.len() && b < pre.len() {
                    assert(pre[a] == self@[a] && pre[b] == self@[b]);
                } else if a < pre.len() {
                    assert(self@[b] == r@ && self@[a] == pre[a]);
                    assert(pre[a].updated_at < old(self).stamp());
                    assert(pre[a].id < old(self).next_id as int);
                } else {
                    assert(self@[a] == r@ && self@[b] == pre[b]);
                    assert(pre[b].updated_at < old(self).stamp());
                    assert(pre[b].id < old(self).next_id as int);
                }
            }
        }
        r
    }

    /// Resolves the previous successfully processed snapshot.
    ///
    /// If `latest` is itself already processed it is returned directly.
    /// Otherwise the row with `pending == false` and the newest update
    /// stamp is returned, or `None` if no snapshot has ever completed
    /// import.
    pub fn latest_processed(&self, latest: &IndexFile) -> (r: Option<IndexFile>)
        requires
            self.wf(),
        ensures
            !latest@.pending ==> (match r {
                Some(f) => f@ == latest@,
                None => false,
            }),
            latest@.pending ==> (match r {
                Some(f) => newest_processed(self@) == Some(f@),
                None => newest_processed(self@) is None,
            }),
    {
        if !latest.pending {
            return Some(latest.duplicate());
        }
        let n = self.rows.len();
        let mut best: Option<IndexFile> = None;
        let mut i: usize = 0;
        while i < n
            invariant
                self.wf(),
                n == self.rows@.len(),
                i <= n,
                (match best {
                    Some(b) => newest_processed(self@.take(i as int)) == Some(b@),
                    None => newest_processed(self@.take(i as int)) is None,
                }),
            decreases n - i,
        {
            let ghost prefix = self@.take(i as int);
            let row = &self.rows[i];
            proof {
                assert(self@.take(i + 1).drop_last() =~= prefix);
                assert(self@.take(i + 1).last() == self@[i as int]);
            }
            if !row.pending {
                match &best {
                    None => {
                        best = Some(row.duplicate());
                    },
                    Some(b) => {
                        if b.updated_at < row.updated_at {
                            best = Some(row.duplicate());
                        }
                    },
                }
            }
            i = i + 1;
        }
        proof {
            assert(self@.take(n as int) =~= self@);
        }
        best
    }

    /// Marks the row carrying `index_file`'s identifier as processed.
    ///
    /// The row's `pending` flag becomes false and its update stamp is
    /// refreshed; every other field and every other row is left unchanged.
    /// Calling it on an already processed row is a no-op by value.
    pub fn mark_processed(&mut self, index_file: IndexFile) -> (r: IndexFile)
        requires
            old(self).wf(),
            old(self).stamp() < u64::MAX as int,
            has_index_id(old(self)@, index_file@.id),
        ensures
            final(self).wf(),
            final(self).stamp() == old(self).stamp() + 1,
            r@.pending == false,
            ({
                let i = index_row_at(old(self)@, index_file@.id);
                &&& 0 <= i < old(self)@.len()
                &&& old(self)@[i].id == index_file@.id
                &&& final(self)@ == old(self)@.update(i, r@)
                &&& r@ == processed_view(old(self)@[i], r@.updated_at)
                &&& old(self)@[i].updated_at <= r@.updated_at
            }),
            // pending moves only from true to false
            forall|j: int| 0 <= j < old(self)@.len() && !old(self)@[j].pending
                ==> !final(self)@[j].pending,
    {
        let n = self.rows.len();
        let mut i: usize = 0;
        while i < n
            invariant
                old(self) == self,
                self.wf(),
                self.stamp() < u64::MAX as int,
                n == self.rows@.len(),
                i <= n,
                has_index_id(self@, index_file@.id),
                forall|j: int| 0 <= j < i ==> self@[j].id != index_file@.id,
            decreases n - i,
        {
            if self.rows[i].id == index_file.id {
                let ghost pre = self@;
                let stamp = self.clock;
                self.rows[i].pending = false;
                self.rows[i].updated_at = stamp;
                self.clock = self.clock + 1;
                let r = self.rows[i].duplicate();
                proof {
                    assert(self@ =~= pre.update(i as int, r@));
                    let k = index_row_at(pre, index_file@.id);
                    assert(0 <= k < pre.len() && pre[k].id == index_file@.id);
                    assert(k == i as int);
                    assert(r@ =~= processed_view(pre[i as int], r@.updated_at));
                    assert forall|a: int, b: int|
                        0 <= a < self@.len() && 0 <= b < self@.len() && a != b
                        implies self@[a].id != self@[b].id
                            && self@[a].hash != self@[b].hash
                            && self@[a].updated_at != self@[b].updated_at by {
                        if a != i && b != i {
                        } else if a == i {
                            assert(pre[b].updated_at < stamp as int);
                        } else {
                            assert(pre[a].updated_at < stamp as int);
                        }
                    }
                    assert forall|a: int| 0 <= a < self@.len() implies
                        self@[a].created_at <= self@[a].updated_at
                            && self@[a].updated_at < self.clock as int
                            && self@[a].id < self.next_id as int by {
                        assert(pre[a].created_at <= pre[a].updated_at);
                        assert(pre[a].updated_at < stamp as int);
                        assert(pre[a].id < self.next_id as int);
                        if a == i {
                            assert(self@[a] == r@);
                        } else {
                            assert(self@[a] == pre[a]);
                        }
                    }
                }
                return r;
            }
            i = i + 1;
        }
        proof {
            assert(false);
        }
        unreached()
    }
}

} // verus!
