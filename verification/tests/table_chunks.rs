use querier::backoff::BackoffConfig;
use querier::catalog::CatalogContents;
use querier::data::{
    ChunkId, Column, ColumnType, DeletePredicate, ParquetFileId, ParquetFileRef, SequenceNumber,
    SequencerId, TableId, TableSchema, Tombstone, TombstoneId,
};
use querier::marks::ProcessedMarks;
use querier::prune::TimeRange;
use querier::table::{MaterializeVerdicts, QuerierTable};
use std::sync::Arc;

fn file(
    id: i64,
    table: i64,
    sequencer: i64,
    min_seq: i64,
    max_seq: i64,
    to_delete: bool,
) -> ParquetFileRef {
    ParquetFileRef {
        id: ParquetFileId(id),
        table_id: TableId(table),
        sequencer_id: SequencerId(sequencer),
        min_sequence_number: SequenceNumber(min_seq),
        max_sequence_number: SequenceNumber(max_seq),
        min_time: Some(11),
        max_time: Some(55),
        to_delete,
    }
}

fn tombstone(id: i64, table: i64, sequencer: i64, seq: i64) -> Tombstone {
    Tombstone {
        id: TombstoneId(id),
        table_id: TableId(table),
        sequencer_id: SequencerId(sequencer),
        sequence_number: SequenceNumber(seq),
        delete_predicate: Arc::new(DeletePredicate {
            min_time: 1,
            max_time: 100,
            expr: "foo=1".to_string(),
        }),
    }
}

fn schema() -> Arc<TableSchema> {
    Arc::new(TableSchema {
        columns: vec![Column { name: "foo".to_string(), column_type: ColumnType::I64 }],
    })
}

fn table1() -> QuerierTable {
    QuerierTable::new(BackoffConfig::default(), TableId(1), "table1".to_string(), schema())
}

#[test]
fn test_chunks() {
    let mut catalog = CatalogContents { files: Vec::new(), tombstones: Vec::new() };
    let querier_table = table1();
    let all = MaterializeVerdicts::all_files_queryable();
    let marks = ProcessedMarks::new();

    // no parquet files yet
    let snap = catalog.snapshot(querier_table.id());
    assert!(querier_table.chunks(&snap, &all, &marks).is_empty());

    catalog.files = vec![
        file(111, 1, 1, 1, 2, true),
        file(112, 1, 1, 3, 4, false),
        file(113, 1, 1, 5, 6, false),
        file(114, 1, 1, 7, 8, false),
        file(115, 1, 1, 9, 10, false),
        file(121, 1, 2, 1, 2, false),
        file(211, 2, 1, 1, 2, false),
    ];
    catalog.tombstones = vec![tombstone(1, 1, 1, 7), tombstone(2, 1, 1, 8)];

    // both tombstones are already materialized into file 112
    let mut marks = ProcessedMarks::new();
    marks.mark(ParquetFileId(112), TombstoneId(1));
    marks.mark(ParquetFileId(112), TombstoneId(2));

    // now we have some files
    // this contains all files except for:
    // - file 111: marked for delete
    // - file 211: wrong table
    let snap = catalog.snapshot(querier_table.id());
    let mut chunks = querier_table.chunks(&snap, &all, &marks);
    chunks.sort_by_key(|c| c.id().0);
    assert_eq!(chunks.len(), 5);

    // check IDs
    assert_eq!(chunks[0].id(), ChunkId(112));
    assert_eq!(chunks[1].id(), ChunkId(113));
    assert_eq!(chunks[2].id(), ChunkId(114));
    assert_eq!(chunks[3].id(), ChunkId(115));
    assert_eq!(chunks[4].id(), ChunkId(121));

    // check delete predicates
    // file 112: marked as processed
    assert_eq!(chunks[0].delete_predicates().len(), 0);
    // file 113: has delete predicate
    assert_eq!(chunks[1].delete_predicates().len(), 2);
    // file 114: predicates are directly within the chunk range => assume they are materialized
    assert_eq!(chunks[2].delete_predicates().len(), 0);
    // file 115: came after in sequencer
    assert_eq!(chunks[3].delete_predicates().len(), 0);
    // file 121: wrong sequencer
    assert_eq!(chunks[4].delete_predicates().len(), 0);

    // the attached predicates carry the tombstone's expression and range
    assert_eq!(chunks[1].delete_predicates()[0].expr, "foo=1");
    assert_eq!(chunks[1].delete_predicates()[0].min_time, 1);
    assert_eq!(chunks[1].delete_predicates()[0].max_time, 100);

    // the table's pruner keeps every chunk whose time range may match
    let pruner = querier_table.chunk_pruner();
    let kept = pruner.prune_chunks(chunks, &TimeRange { min_time: 11, max_time: 55 });
    assert_eq!(kept.len(), 5);
    let kept = pruner.prune_chunks(kept, &TimeRange { min_time: 60, max_time: 70 });
    assert_eq!(kept.len(), 0);
}

#[test]
fn snapshot_consistency() {
    // Both listings of a snapshot come from one catalog value, so a write
    // committed after the snapshot is taken is not observable through it.
    let mut catalog = CatalogContents {
        files: vec![file(112, 1, 1, 3, 4, false), file(113, 1, 1, 5, 6, false)],
        tombstones: vec![tombstone(1, 1, 1, 7)],
    };
    let querier_table = table1();
    let all = MaterializeVerdicts::all_files_queryable();
    let marks = ProcessedMarks::new();

    let snap = catalog.snapshot(querier_table.id());

    // a concurrent writer commits a new file and a new tombstone
    catalog.files.push(file(300, 1, 1, 11, 12, false));
    catalog.tombstones.push(tombstone(9, 1, 1, 20));

    // the earlier snapshot still reflects exactly the earlier state
    let mut chunks = querier_table.chunks(&snap, &all, &marks);
    chunks.sort_by_key(|c| c.id().0);
    assert_eq!(chunks.len(), 2);
    assert_eq!(chunks[0].id(), ChunkId(112));
    assert_eq!(chunks[1].id(), ChunkId(113));
    assert_eq!(chunks[0].delete_predicates().len(), 1);
    assert_eq!(chunks[1].delete_predicates().len(), 1);

    // a fresh snapshot sees the write as a whole
    let snap2 = catalog.snapshot(querier_table.id());
    let mut chunks2 = querier_table.chunks(&snap2, &all, &marks);
    chunks2.sort_by_key(|c| c.id().0);
    assert_eq!(chunks2.len(), 3);
    assert_eq!(chunks2[0].delete_predicates().len(), 2);
    assert_eq!(chunks2[1].delete_predicates().len(), 2);
    // the new file spans (11, 12); only the tombstone at 20 is later
    assert_eq!(chunks2[2].id(), ChunkId(300));
    assert_eq!(chunks2[2].delete_predicates().len(), 1);
}

#[test]
fn soft_delete_exclusion() {
    // a file flagged for delete never appears, whatever the tombstones say
    let catalog = CatalogContents {
        files: vec![file(112, 1, 1, 3, 4, true), file(113, 1, 1, 5, 6, false)],
        tombstones: vec![tombstone(1, 1, 1, 7)],
    };
    let querier_table = table1();
    let all = MaterializeVerdicts::all_files_queryable();
    let marks = ProcessedMarks::new();

    let snap = catalog.snapshot(querier_table.id());
    let chunks = querier_table.chunks(&snap, &all, &marks);
    assert_eq!(chunks.len(), 1);
    assert_eq!(chunks[0].id(), ChunkId(113));
}

#[test]
fn cross_table_isolation() {
    // files and tombstones of another table change nothing for this table
    let table1_only = CatalogContents {
        files: vec![file(112, 1, 1, 3, 4, false)],
        tombstones: vec![tombstone(1, 1, 1, 7)],
    };
    let with_table2 = CatalogContents {
        files: vec![file(112, 1, 1, 3, 4, false), file(211, 2, 1, 3, 4, false)],
        tombstones: vec![tombstone(1, 1, 1, 7), tombstone(5, 2, 1, 9)],
    };
    let querier_table = table1();
    let all = MaterializeVerdicts::all_files_queryable();
    let marks = ProcessedMarks::new();

    let a = querier_table.chunks(&table1_only.snapshot(querier_table.id()), &all, &marks);
    let b = querier_table.chunks(&with_table2.snapshot(querier_table.id()), &all, &marks);
    assert_eq!(a.len(), b.len());
    assert_eq!(a.len(), 1);
    assert_eq!(a[0].id(), b[0].id());
    assert_eq!(a[0].delete_predicates().len(), b[0].delete_predicates().len());
    assert_eq!(a[0].delete_predicates().len(), 1);
}

#[test]
fn materialization_gap_excludes_file() {
    // a file the collaborator judges to carry no data is silently excluded
    let catalog = CatalogContents {
        files: vec![file(112, 1, 1, 3, 4, false), file(113, 1, 1, 5, 6, false)],
        tombstones: Vec::new(),
    };
    let querier_table = table1();
    let marks = ProcessedMarks::new();
    let verdicts = MaterializeVerdicts { no_data_files: vec![ParquetFileId(112)] };

    let snap = catalog.snapshot(querier_table.id());
    let chunks = querier_table.chunks(&snap, &verdicts, &marks);
    assert_eq!(chunks.len(), 1);
    assert_eq!(chunks[0].id(), ChunkId(113));
}

#[test]
fn table_accessors() {
    let querier_table = table1();
    assert_eq!(querier_table.name(), "table1");
    assert_eq!(querier_table.id(), TableId(1));
    assert_eq!(querier_table.schema().columns.len(), 1);
    assert_eq!(querier_table.schema().columns[0].name, "foo");
    assert_eq!(querier_table.schema().columns[0].column_type, ColumnType::I64);
    // every chunk shares the table's schema allocation
    let catalog = CatalogContents {
        files: vec![file(112, 1, 1, 3, 4, false)],
        tombstones: Vec::new(),
    };
    let all = MaterializeVerdicts::all_files_queryable();
    let marks = ProcessedMarks::new();
    let chunks = querier_table.chunks(&catalog.snapshot(querier_table.id()), &all, &marks);
    assert!(Arc::ptr_eq(querier_table.schema(), &chunks[0].schema));
}
