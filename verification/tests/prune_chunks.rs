use querier::data::{
    Chunk, ChunkId, Column, ColumnType, ParquetFileId, ParquetFileRef, SequenceNumber,
    SequencerId, TableId, TableSchema,
};
use querier::prune::{QuerierTableChunkPruner, TimeRange};
use std::sync::Arc;

fn chunk(id: i64, min_time: Option<i64>, max_time: Option<i64>) -> Chunk {
    Chunk {
        file: ParquetFileRef {
            id: ParquetFileId(id),
            table_id: TableId(1),
            sequencer_id: SequencerId(1),
            min_sequence_number: SequenceNumber(1),
            max_sequence_number: SequenceNumber(2),
            min_time,
            max_time,
            to_delete: false,
        },
        schema: Arc::new(TableSchema {
            columns: vec![Column { name: "foo".to_string(), column_type: ColumnType::I64 }],
        }),
        delete_predicates: Vec::new(),
    }
}

#[test]
fn prune_drops_only_provably_irrelevant_chunks() {
    let pruner = QuerierTableChunkPruner {};
    let range = TimeRange { min_time: 50, max_time: 60 };
    let chunks = vec![
        chunk(1, Some(0), Some(10)),    // entirely before: dropped
        chunk(2, Some(0), Some(55)),    // overlaps the start: kept
        chunk(3, Some(55), Some(58)),   // inside: kept
        chunk(4, Some(58), Some(100)),  // overlaps the end: kept
        chunk(5, Some(70), Some(100)),  // entirely after: dropped
        chunk(6, None, None),           // unknown bounds: kept
        chunk(7, None, Some(49)),       // ends before the range: dropped
        chunk(8, Some(61), None),       // starts after the range: dropped
    ];
    let kept = pruner.prune_chunks(chunks, &range);
    let ids: Vec<ChunkId> = kept.iter().map(|c| c.id()).collect();
    assert_eq!(ids, vec![ChunkId(2), ChunkId(3), ChunkId(4), ChunkId(6)]);
}

#[test]
fn prune_touches_boundaries_inclusively() {
    let pruner = QuerierTableChunkPruner {};
    let range = TimeRange { min_time: 50, max_time: 60 };
    // a chunk ending exactly at the range start could contain matching rows
    let kept = pruner.prune_chunks(vec![chunk(1, Some(0), Some(50))], &range);
    assert_eq!(kept.len(), 1);
    // a chunk starting exactly at the range end could contain matching rows
    let kept = pruner.prune_chunks(vec![chunk(2, Some(60), Some(90))], &range);
    assert_eq!(kept.len(), 1);
}

#[test]
fn prune_keeps_input_order_and_contents() {
    let pruner = QuerierTableChunkPruner {};
    let range = TimeRange { min_time: 0, max_time: 100 };
    let kept = pruner.prune_chunks(
        vec![chunk(3, Some(1), Some(2)), chunk(1, Some(1), Some(2)), chunk(2, None, None)],
        &range,
    );
    let ids: Vec<ChunkId> = kept.iter().map(|c| c.id()).collect();
    assert_eq!(ids, vec![ChunkId(3), ChunkId(1), ChunkId(2)]);
}

#[test]
fn prune_of_nothing_is_nothing() {
    let pruner = QuerierTableChunkPruner {};
    let range = TimeRange { min_time: 0, max_time: 1 };
    assert!(pruner.prune_chunks(Vec::new(), &range).is_empty());
}
