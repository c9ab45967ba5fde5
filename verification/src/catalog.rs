//! An in-memory model of the catalog's visible metadata, and the snapshot
//! type the engine consumes.
//!
//! The real catalog is a remote transactional store; what this engine relies
//! on is only the contents a committed read transaction can return. Both
//! listings of a snapshot are computed from one value of `CatalogContents`,
//! so a snapshot can never mix two states of the store.

use crate::data::{ParquetFileRef, TableId, Tombstone};
use vstd::prelude::*;

verus! {

/// The error a catalog access can fail with. Every variant is
/// transient-category: the retry policy treats them all alike.
#[derive(Clone, Copy, Debug, PartialEq, Eq, Structural)]
pub enum CatalogError {
    /// The store could not be reached when starting the transaction or
    /// performing a read.
    Unreachable,
    /// The read transaction failed to commit, from a conflict or a lost
    /// connection.
    CommitConflict,
}

/// What one committed read transaction returned for a table: its visible
/// parquet files and its tombstones, from one consistent catalog state.
#[derive(Debug)]
pub struct TableSnapshot {
    pub files: Vec<ParquetFileRef>,
    pub tombstones: Vec<Tombstone>,
}

/// Whether a file is listed for a table by the "not to delete" listing: it
/// belongs to the table and its soft-delete flag is unset.
pub open spec fn visible_file_of(table_id: TableId) -> spec_fn(ParquetFileRef) -> bool {
    |f: ParquetFileRef| f.table_id == table_id && !f.to_delete
}

/// Whether a tombstone is listed for a table.
pub open spec fn tombstone_of(table_id: TableId) -> spec_fn(Tombstone) -> bool {
    |t: Tombstone| t.table_id == table_id
}

/// The files of the table that are visible to queries, in catalog order.
pub open spec fn table_files(files: Seq<ParquetFileRef>, table_id: TableId) -> Seq<
    ParquetFileRef,
> {
    files.filter(visible_file_of(table_id))
}

/// The tombstones of the table, in catalog order.
pub open spec fn table_tombstones(tombstones: Seq<Tombstone>, table_id: TableId) -> Seq<
    Tombstone,
> {
    tombstones.filter(tombstone_of(table_id))
}

/// One state of the catalog's metadata: every persisted parquet file and
/// every tombstone, across all tables.
#[derive(Debug)]
pub struct CatalogContents {
    pub files: Vec<ParquetFileRef>,
    pub tombstones: Vec<Tombstone>,
}

impl CatalogContents {
    /// List the table's parquet files that are not flagged for delete. The
    /// catalog enforces the soft-delete filter here; consumers never
    /// re-check it.
    pub fn list_parquet_files_not_deleted(&self, table_id: TableId) -> (r: Vec<ParquetFileRef>)
        ensures
            r@ == table_files(self.files@, table_id),
    {
        let mut r: Vec<ParquetFileRef> = Vec::new();
        let n = self.files.len();
        proof {
            assert(self.files@.take(0).filter(visible_file_of(table_id))
                =~= Seq::<ParquetFileRef>::empty());
        }
        for i in 0..n
            invariant
                n == self.files@.len(),
                r@ == table_files(self.files@.take(i as int), table_id),
        {
            let f = self.files[i];
            if f.table_id == table_id && !f.to_delete {
                r.push(f);
            }
            proof {
                crate::seq_facts::lemma_filter_take_step(
                    self.files@,
                    visible_file_of(table_id),
                    i as int,
                );
            }
        }
        proof {
            crate::seq_facts::lemma_filter_take_all(self.files@, visible_file_of(table_id));
        }
        r
    }

    /// List the table's tombstones.
    pub fn list_tombstones(&self, table_id: TableId) -> (r: Vec<Tombstone>)
        ensures
            r@ == table_tombstones(self.tombstones@, table_id),
    {
        let mut r: Vec<Tombstone> = Vec::new();
        let n = self.tombstones.len();
        proof {
            assert(self.tombstones@.take(0).filter(tombstone_of(table_id))
                =~= Seq::<Tombstone>::empty());
        }
        for i in 0..n
            invariant
                n == self.tombstones@.len(),
                r@ == table_tombstones(self.tombstones@.take(i as int), table_id),
        {
            let t = &self.tombstones[i];
            if t.table_id == table_id {
                r.push(t.clone());
            }
            proof {
                crate::seq_facts::lemma_filter_take_step(
                    self.tombstones@,
                    tombstone_of(table_id),
                    i as int,
                );
            }
        }
        proof {
            crate::seq_facts::lemma_filter_take_all(self.tombstones@, tombstone_of(table_id));
        }
        r
    }

    /// Read both listings for a table from this one catalog state, as a
    /// committed read transaction does. Both sides of the snapshot come from
    /// the same value of `self`, so the pair is consistent by construction.
    pub fn snapshot(&self, table_id: TableId) -> (s: TableSnapshot)
        ensures
            s.files@ == table_files(self.files@, table_id),
            s.tombstones@ == table_tombstones(self.tombstones@, table_id),
    {
        TableSnapshot {
            files: self.list_parquet_files_not_deleted(table_id),
            tombstones: self.list_tombstones(table_id),
        }
    }
}

/// The catalog's tombstone invariant: tombstone ids are never reused, and
/// within one sequencer no sequence number is issued twice.
pub open spec fn tombstones_wf(tombstones: Seq<Tombstone>) -> bool {
    forall|i: int, j: int|
        0 <= i < j < tombstones.len() ==> (#[trigger] tombstones[i]).id != (
        #[trigger] tombstones[j]).id && (tombstones[i].sequencer_id
            == tombstones[j].sequencer_id ==> tombstones[i].sequence_number
            != tombstones[j].sequence_number)
}

/// The catalog's file invariant: file ids are never reused.
pub open spec fn files_wf(files: Seq<ParquetFileRef>) -> bool {
    forall|i: int, j: int|
        0 <= i < j < files.len() ==> (#[trigger] files[i]).id != (#[trigger] files[j]).id
}

impl CatalogContents {
    /// A well-formed catalog state: ids unique, sequence numbers never
    /// reused within a sequencer.
    pub open spec fn wf(&self) -> bool {
        files_wf(self.files@) && tombstones_wf(self.tombstones@)
    }
}

/// A snapshot read from a well-formed catalog keeps both invariants: its
/// file list has no repeated file, and its tombstone list still has unique
/// ids and unique per-sequencer sequence numbers.
pub proof fn lemma_snapshot_preserves_invariants(catalog: CatalogContents, table_id: TableId)
    requires
        catalog.wf(),
    ensures
        files_wf(table_files(catalog.files@, table_id)),
        tombstones_wf(table_tombstones(catalog.tombstones@, table_id)),
{
    let files = catalog.files@;
    let tombstones = catalog.tombstones@;
    let file_rel = |a: ParquetFileRef, b: ParquetFileRef| a.id != b.id;
    assert forall|i: int, j: int| 0 <= i < j < files.len() implies #[trigger] file_rel(
        files[i],
        files[j],
    ) by {
        assert(files[i].id != files[j].id);
    }
    crate::seq_facts::lemma_filter_preserves_pairwise(
        files,
        visible_file_of(table_id),
        file_rel,
    );
    let lf = table_files(files, table_id);
    assert forall|i: int, j: int| 0 <= i < j < lf.len() implies (#[trigger] lf[i]).id != (
    #[trigger] lf[j]).id by {
        assert(file_rel(lf[i], lf[j]));
    }
    let tomb_rel = |a: Tombstone, b: Tombstone|
        a.id != b.id && (a.sequencer_id == b.sequencer_id ==> a.sequence_number
            != b.sequence_number);
    assert forall|i: int, j: int| 0 <= i < j < tombstones.len() implies #[trigger] tomb_rel(
        tombstones[i],
        tombstones[j],
    ) by {
        assert(tombstones[i].id != tombstones[j].id);
    }
    crate::seq_facts::lemma_filter_preserves_pairwise(
        tombstones,
        tombstone_of(table_id),
        tomb_rel,
    );
    let lt = table_tombstones(tombstones, table_id);
    assert forall|i: int, j: int| 0 <= i < j < lt.len() implies (#[trigger] lt[i]).id != (
    #[trigger] lt[j]).id && (lt[i].sequencer_id == lt[j].sequencer_id ==> lt[i].sequence_number
        != lt[j].sequence_number) by {
        assert(tomb_rel(lt[i], lt[j]));
    }
}

/// Law (soft-delete exclusion): the visible-file listing never contains a
/// file flagged for delete, nor a file of another table, whatever else the
/// catalog holds.
pub proof fn lemma_soft_delete_exclusion(files: Seq<ParquetFileRef>, table_id: TableId)
    ensures
        forall|k: int|
            0 <= k < table_files(files, table_id).len() ==> !(#[trigger] table_files(
                files,
                table_id,
            )[k]).to_delete && table_files(files, table_id)[k].table_id == table_id,
{
    broadcast use vstd::seq_lib::group_filter_ensures;

}

/// Law (cross-table isolation): adding a file or a tombstone that belongs to
/// a different table to the catalog leaves the table's listings — and hence
/// every chunk set assembled from them — unchanged.
pub proof fn lemma_cross_table_isolation(
    files: Seq<ParquetFileRef>,
    tombstones: Seq<Tombstone>,
    other_file: ParquetFileRef,
    other_tomb: Tombstone,
    table_id: TableId,
)
    requires
        other_file.table_id != table_id,
        other_tomb.table_id != table_id,
    ensures
        table_files(files.push(other_file), table_id) == table_files(files, table_id),
        table_tombstones(tombstones.push(other_tomb), table_id) == table_tombstones(
            tombstones,
            table_id,
        ),
{
    reveal(Seq::filter);
    assert(files.push(other_file).drop_last() =~= files);
    assert(tombstones.push(other_tomb).drop_last() =~= tombstones);
}

} // verus!
