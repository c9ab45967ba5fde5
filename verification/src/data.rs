//! The records the engine works on: persisted file metadata, tombstones,
//! shared delete predicates, table schemas and query-time chunks.

use std::sync::Arc;
use vstd::prelude::*;

verus! {

/// Identifier of a table in the catalog.
#[derive(Clone, Copy, Debug, PartialEq, Eq, Structural)]
pub struct TableId(pub i64);

/// Identifier of a sequencer: one ordering domain in which sequence numbers
/// are issued monotonically.
#[derive(Clone, Copy, Debug, PartialEq, Eq, Structural)]
pub struct SequencerId(pub i64);

/// A per-sequencer, strictly increasing marker of when a row or tombstone was
/// recorded.
#[derive(Clone, Copy, Debug, PartialEq, Eq, Structural)]
pub struct SequenceNumber(pub i64);

/// Identifier of one persisted parquet file.
#[derive(Clone, Copy, Debug, PartialEq, Eq, Structural)]
pub struct ParquetFileId(pub i64);

/// Identifier of one tombstone.
#[derive(Clone, Copy, Debug, PartialEq, Eq, Structural)]
pub struct TombstoneId(pub i64);

/// Identifier of a query-time chunk; chunks are built fresh from parquet
/// files on every assembly, so the chunk id is the file id.
#[derive(Clone, Copy, Debug, PartialEq, Eq, Structural)]
pub struct ChunkId(pub i64);

/// Read-only metadata of one persisted, queryable segment, as the catalog
/// stores it.
#[derive(Clone, Copy, Debug)]
pub struct ParquetFileRef {
    pub id: ParquetFileId,
    pub table_id: TableId,
    pub sequencer_id: SequencerId,
    /// Smallest sequence number spanned by rows in the file.
    pub min_sequence_number: SequenceNumber,
    /// Largest sequence number spanned by rows in the file.
    pub max_sequence_number: SequenceNumber,
    /// Smallest event timestamp in the file, when known.
    pub min_time: Option<i64>,
    /// Largest event timestamp in the file, when known.
    pub max_time: Option<i64>,
    /// Soft-delete flag: a flagged file is no longer visible to queries.
    pub to_delete: bool,
}

/// An immutable delete expression over tags and time. One instance may be
/// shared by many chunks, so it is handed around behind an `Arc`.
#[derive(Debug)]
pub struct DeletePredicate {
    /// Start of the deleted time range.
    pub min_time: i64,
    /// End of the deleted time range.
    pub max_time: i64,
    /// The tag expression, kept opaque by this engine.
    pub expr: String,
}

/// A logical bulk-delete marker recorded in the catalog.
#[derive(Debug)]
pub struct Tombstone {
    pub id: TombstoneId,
    pub table_id: TableId,
    pub sequencer_id: SequencerId,
    /// The point in the sequencer's issuance order at which the delete was
    /// recorded.
    pub sequence_number: SequenceNumber,
    /// The delete expression, shared with every chunk it is attached to.
    pub delete_predicate: Arc<DeletePredicate>,
}

/// Relies on `alloc::sync::Arc::clone`: the returned handle points at the
/// same allocation as the argument, so it carries the same value.
#[verifier::external_body]
pub(crate) fn share_arc<T>(x: &Arc<T>) -> (r: Arc<T>)
    ensures
        r == *x,
{
    Arc::clone(x)
}

/// The type of one column of a table.
#[derive(Clone, Copy, Debug, PartialEq, Eq, Structural)]
pub enum ColumnType {
    Tag,
    Time,
    Bool,
    I64,
    U64,
}

/// One column of a table schema.
#[derive(Debug)]
pub struct Column {
    pub name: String,
    pub column_type: ColumnType,
}

/// The schema of a table; long-lived and immutable, so shared behind an
/// `Arc` by the table and every chunk built for it.
#[derive(Debug)]
pub struct TableSchema {
    pub columns: Vec<Column>,
}

/// A query-time handle over one persisted file: the file's metadata, the
/// table schema, and the delete predicates a query must still apply to the
/// file's rows. Built fresh on every assembly and never mutated afterwards.
#[derive(Debug)]
pub struct Chunk {
    pub file: ParquetFileRef,
    pub schema: Arc<TableSchema>,
    pub delete_predicates: Vec<Arc<DeletePredicate>>,
}

impl Chunk {
    /// The chunk's identity, inherited from the file it was built over.
    pub fn id(&self) -> (r: ChunkId)
        ensures
            r == ChunkId(self.file.id.0),
    {
        ChunkId(self.file.id.0)
    }

    /// The file this chunk was built over.
    pub fn parquet_file_id(&self) -> (r: ParquetFileId)
        ensures
            r == self.file.id,
    {
        self.file.id
    }

    /// The sequencer whose tombstones can apply to this chunk.
    pub fn sequencer_id(&self) -> (r: SequencerId)
        ensures
            r == self.file.sequencer_id,
    {
        self.file.sequencer_id
    }

    /// The delete predicates resolved for this chunk.
    pub fn delete_predicates(&self) -> (r: &Vec<Arc<DeletePredicate>>)
        ensures
            r == &self.delete_predicates,
    {
        &self.delete_predicates
    }
}

impl Clone for Tombstone {
    fn clone(&self) -> (res: Self)
        ensures
            res == *self,
    {
        Tombstone {
            id: self.id,
            table_id: self.table_id,
            sequencer_id: self.sequencer_id,
            sequence_number: self.sequence_number,
            delete_predicate: share_arc(&self.delete_predicate),
        }
    }
}

} // verus!
