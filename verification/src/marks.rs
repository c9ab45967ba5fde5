//! The visible contents of the processed-mark store.

use crate::data::{ParquetFileId, TombstoneId};
use vstd::prelude::*;

verus! {

/// The set of (file, tombstone) pairs whose deletion a separate process
/// (ingestion or compaction) has already materialized into the file's
/// physical contents. A pair that is marked needs no delete predicate at
/// query time. This engine only reads the store; other subsystems write it.
#[derive(Debug)]
pub struct ProcessedMarks {
    pairs: Vec<(ParquetFileId, TombstoneId)>,
}

impl View for ProcessedMarks {
    type V = Set<(ParquetFileId, TombstoneId)>;

    closed spec fn view(&self) -> Set<(ParquetFileId, TombstoneId)> {
        self.pairs@.to_set()
    }
}

impl ProcessedMarks {
    /// A store with nothing marked.
    pub fn new() -> (r: Self)
        ensures
            r@ == Set::<(ParquetFileId, TombstoneId)>::empty(),
    {
        let r = ProcessedMarks { pairs: Vec::new() };
        proof {
            assert(r@ =~= Set::<(ParquetFileId, TombstoneId)>::empty());
        }
        r
    }

    /// Record that the tombstone's deletion is already materialized in the
    /// file.
    pub fn mark(&mut self, file_id: ParquetFileId, tombstone_id: TombstoneId)
        ensures
            final(self)@ == old(self)@.insert((file_id, tombstone_id)),
    {
        self.pairs.push((file_id, tombstone_id));
        proof {
            let p = (file_id, tombstone_id);
            let s0 = old(self).pairs@;
            assert forall|q: (ParquetFileId, TombstoneId)|
                #[trigger] self.pairs@.contains(q) implies s0.contains(q) || q == p by {
                let k = choose|k: int| 0 <= k < self.pairs@.len() && self.pairs@[k] == q;
                if k < s0.len() {
                    assert(s0[k] == q);
                }
            }
            assert forall|q: (ParquetFileId, TombstoneId)|
                s0.contains(q) || q == p implies #[trigger] self.pairs@.contains(q) by {
                if s0.contains(q) {
                    let k = choose|k: int| 0 <= k < s0.len() && s0[k] == q;
                    assert(self.pairs@[k] == q);
                } else {
                    assert(self.pairs@[s0.len() as int] == q);
                }
            }
            assert(self@ =~= old(self)@.insert(p));
        }
    }

    /// Whether the (file, tombstone) pair is marked as processed.
    pub fn contains(&self, file_id: ParquetFileId, tombstone_id: TombstoneId) -> (r: bool)
        ensures
            r == self@.contains((file_id, tombstone_id)),
    {
        let n = self.pairs.len();
        for i in 0..n
            invariant
                n == self.pairs@.len(),
                forall|k: int|
                    0 <= k < i ==> self.pairs@[k] != (file_id, tombstone_id),
        {
            let p = self.pairs[i];
            if p.0 == file_id && p.1 == tombstone_id {
                proof {
                    assert(self.pairs@.contains((file_id, tombstone_id)));
                }
                return true;
            }
        }
        proof {
            assert(!self.pairs@.contains((file_id, tombstone_id)));
        }
        false
    }
}

} // verus!
