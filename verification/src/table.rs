//! The per-table orchestrator: owns the table's identity and schema, and
//! assembles the visible chunk list from one catalog snapshot.

use crate::backoff::BackoffConfig;
use crate::catalog::TableSnapshot;
use crate::data::{
    share_arc, Chunk, ParquetFileId, ParquetFileRef, TableId, TableSchema, Tombstone, TombstoneId,
};
use crate::marks::ProcessedMarks;
use crate::prune::QuerierTableChunkPruner;
use crate::reconcile::{reconcile_deletes, resolved_predicates};
use crate::seq_facts::{lemma_filter_take_all, lemma_filter_take_step};
use std::sync::Arc;
use vstd::prelude::*;

verus! {

/// The chunk-materialization collaborator's verdicts for one assembly: the
/// files it judged to carry no queryable data. Such a file yields no chunk
/// and is silently excluded from the result — never reported as an error.
#[derive(Debug)]
pub struct MaterializeVerdicts {
    pub no_data_files: Vec<ParquetFileId>,
}

impl View for MaterializeVerdicts {
    type V = Set<ParquetFileId>;

    open spec fn view(&self) -> Set<ParquetFileId> {
        self.no_data_files@.to_set()
    }
}

impl MaterializeVerdicts {
    /// The verdicts of a collaborator that materializes every file.
    pub fn all_files_queryable() -> (r: Self)
        ensures
            r@ == Set::<ParquetFileId>::empty(),
    {
        let r = MaterializeVerdicts { no_data_files: Vec::new() };
        proof {
            assert(r@ =~= Set::<ParquetFileId>::empty());
        }
        r
    }

    /// Whether materializing the file yields a chunk.
    pub fn yields_chunk(&self, file_id: ParquetFileId) -> (r: bool)
        ensures
            r == !self@.contains(file_id),
    {
        let n = self.no_data_files.len();
        for i in 0..n
            invariant
                n == self.no_data_files@.len(),
                forall|k: int| 0 <= k < i ==> self.no_data_files@[k] != file_id,
        {
            if self.no_data_files[i] == file_id {
                proof {
                    assert(self.no_data_files@.contains(file_id));
                }
                return false;
            }
        }
        proof {
            assert(!self.no_data_files@.contains(file_id));
        }
        true
    }
}

/// Whether the collaborator materializes a file into a chunk.
pub open spec fn materializes_of(no_data: Set<ParquetFileId>) -> spec_fn(ParquetFileRef) -> bool {
    |f: ParquetFileRef| !no_data.contains(f.id)
}

/// The files of a snapshot that become candidate chunks, in snapshot order.
pub open spec fn candidate_files(files: Seq<ParquetFileRef>, no_data: Set<ParquetFileId>) -> Seq<
    ParquetFileRef,
> {
    files.filter(materializes_of(no_data))
}

/// What one assembled chunk must look like: it wraps its candidate file,
/// carries the table's schema, and its predicate set is exactly what the
/// reconciler resolves for that file against the snapshot's tombstones and
/// the processed marks.
pub open spec fn chunk_resolves(
    c: Chunk,
    file: ParquetFileRef,
    schema: Arc<TableSchema>,
    tombstones: Seq<Tombstone>,
    processed: Set<(ParquetFileId, TombstoneId)>,
) -> bool {
    &&& c.file == file
    &&& c.schema == schema
    &&& c.delete_predicates@ == resolved_predicates(file, tombstones, processed)
}

/// Table representation for the querier: long-lived, immutable identity and
/// schema, plus the retry policy used when fetching snapshots. No mutable
/// state is kept between assemblies.
#[derive(Debug)]
pub struct QuerierTable {
    /// Backoff policy for catalog reads.
    pub backoff_config: BackoffConfig,
    /// Table name.
    pub name: String,
    /// Table id.
    pub id: TableId,
    /// Table schema, shared with every chunk built for the table.
    pub schema: Arc<TableSchema>,
}

impl QuerierTable {
    /// Create a new table.
    pub fn new(
        backoff_config: BackoffConfig,
        id: TableId,
        name: String,
        schema: Arc<TableSchema>,
    ) -> (t: Self)
        ensures
            t.backoff_config == backoff_config,
            t.id == id,
            t.name == name,
            t.schema == schema,
    {
        QuerierTable { backoff_config, name, id, schema }
    }

    /// Table name.
    pub fn name(&self) -> (r: &String)
        ensures
            r == &self.name,
    {
        &self.name
    }

    /// Table id.
    pub fn id(&self) -> (r: TableId)
        ensures
            r == self.id,
    {
        self.id
    }

    /// Schema.
    pub fn schema(&self) -> (r: &Arc<TableSchema>)
        ensures
            r == &self.schema,
    {
        &self.schema
    }

    /// Assemble the table's visible chunks from one catalog snapshot: one
    /// chunk per file the collaborator materializes, in snapshot order, each
    /// carrying the table's schema and exactly the delete predicates the
    /// reconciler resolves for its file. Files the collaborator judges to
    /// carry no data are silently excluded; everything else about the result
    /// is a function of the snapshot and the processed marks alone.
    pub fn chunks(
        &self,
        snapshot: &TableSnapshot,
        materialize: &MaterializeVerdicts,
        processed: &ProcessedMarks,
    ) -> (r: Vec<Chunk>)
        ensures
            r@.len() == candidate_files(snapshot.files@, materialize@).len(),
            forall|k: int|
                0 <= k < r@.len() ==> chunk_resolves(
                    #[trigger] r@[k],
                    candidate_files(snapshot.files@, materialize@)[k],
                    self.schema,
                    snapshot.tombstones@,
                    processed@,
                ),
    {
        let mut r: Vec<Chunk> = Vec::new();
        let n = snapshot.files.len();
        proof {
            assert(snapshot.files@.take(0).filter(materializes_of(materialize@))
                =~= Seq::<ParquetFileRef>::empty());
        }
        for i in 0..n
            invariant
                n == snapshot.files@.len(),
                r@.len() == candidate_files(snapshot.files@.take(i as int), materialize@).len(),
                forall|k: int|
                    0 <= k < r@.len() ==> chunk_resolves(
                        #[trigger] r@[k],
                        candidate_files(snapshot.files@.take(i as int), materialize@)[k],
                        self.schema,
                        snapshot.tombstones@,
                        processed@,
                    ),
        {
            let f = snapshot.files[i];
            if materialize.yields_chunk(f.id) {
                let preds = reconcile_deletes(&f, &snapshot.tombstones, processed);
                r.push(
                    Chunk { file: f, schema: share_arc(&self.schema), delete_predicates: preds },
                );
            }
            proof {
                lemma_filter_take_step(snapshot.files@, materializes_of(materialize@), i as int);
            }
        }
        proof {
            lemma_filter_take_all(snapshot.files@, materializes_of(materialize@));
        }
        r
    }

    /// A stateless handle implementing the pruning capability for chunks
    /// assembled by this table.
    pub fn chunk_pruner(&self) -> (p: QuerierTableChunkPruner) {
        QuerierTableChunkPruner {}
    }
}

/// Law (no chunk returned twice): a chunk list meeting the assembly contract
/// over files with unique ids — as a well-formed catalog guarantees — never
/// contains two chunks over the same file.
pub proof fn lemma_no_chunk_twice(
    r: Seq<Chunk>,
    files: Seq<ParquetFileRef>,
    no_data: Set<ParquetFileId>,
    schema: Arc<TableSchema>,
    tombstones: Seq<Tombstone>,
    processed: Set<(ParquetFileId, TombstoneId)>,
)
    requires
        crate::catalog::files_wf(files),
        r.len() == candidate_files(files, no_data).len(),
        forall|k: int|
            0 <= k < r.len() ==> chunk_resolves(
                #[trigger] r[k],
                candidate_files(files, no_data)[k],
                schema,
                tombstones,
                processed,
            ),
    ensures
        forall|i: int, j: int|
            0 <= i < j < r.len() ==> (#[trigger] r[i]).file.id != (#[trigger] r[j]).file.id,
{
    lemma_candidates_distinct(files, no_data);
    let cand = candidate_files(files, no_data);
    assert forall|i: int, j: int| 0 <= i < j < r.len() implies (#[trigger] r[i]).file.id != (
    #[trigger] r[j]).file.id by {
        assert(chunk_resolves(r[i], cand[i], schema, tombstones, processed));
        assert(chunk_resolves(r[j], cand[j], schema, tombstones, processed));
        assert(cand[i].id != cand[j].id);
    }
}

/// Every distinct pair of files stays distinct through candidate selection,
/// so no chunk is ever returned twice: distinct files make distinct chunks.
pub proof fn lemma_candidates_distinct(
    files: Seq<ParquetFileRef>,
    no_data: Set<ParquetFileId>,
)
    requires
        forall|i: int, j: int|
            0 <= i < j < files.len() ==> (#[trigger] files[i]).id != (#[trigger] files[j]).id,
    ensures
        forall|i: int, j: int|
            0 <= i < j < candidate_files(files, no_data).len()
                ==> (#[trigger] candidate_files(files, no_data)[i]).id
                != (#[trigger] candidate_files(files, no_data)[j]).id,
{
    let rel = |a: ParquetFileRef, b: ParquetFileRef| a.id != b.id;
    assert forall|i: int, j: int| 0 <= i < j < files.len() implies #[trigger] rel(
        files[i],
        files[j],
    ) by {
        assert(files[i].id != files[j].id);
    }
    crate::seq_facts::lemma_filter_preserves_pairwise(files, materializes_of(no_data), rel);
    let cand = candidate_files(files, no_data);
    assert forall|i: int, j: int| 0 <= i < j < cand.len() implies (#[trigger] cand[i]).id != (
    #[trigger] cand[j]).id by {
        assert(rel(cand[i], cand[j]));
    }
}

} // verus!
