//! The pruning capability: drop chunks that provably cannot contain rows
//! matching a query's time range, using file metadata alone.
//!
//! Soundness is the one hard requirement: a chunk that could contain matching
//! rows is never dropped. Keeping an irrelevant chunk is always allowed.

use crate::data::Chunk;
use crate::seq_facts::{lemma_filter_take_all, lemma_filter_take_step};
use vstd::prelude::*;

verus! {

/// The time range a query asks about, inclusive on both ends.
#[derive(Clone, Copy, Debug, PartialEq, Eq, Structural)]
pub struct TimeRange {
    pub min_time: i64,
    pub max_time: i64,
}

/// Whether the chunk's file metadata proves the chunk irrelevant to the
/// range: its newest row ends before the range starts, or its oldest row
/// starts after the range ends. A missing bound never proves anything.
pub open spec fn provably_irrelevant(c: Chunk, range: TimeRange) -> bool {
    ||| match c.file.max_time {
        Some(t) => t < range.min_time,
        None => false,
    }
    ||| match c.file.min_time {
        Some(t) => t > range.max_time,
        None => false,
    }
}

/// Whether the chunk could contain rows in the range: its known time bounds
/// intersect the range, or a bound is unknown.
pub open spec fn may_contain_matching_rows(c: Chunk, range: TimeRange) -> bool {
    &&& match c.file.max_time {
        Some(t) => t >= range.min_time,
        None => true,
    }
    &&& match c.file.min_time {
        Some(t) => t <= range.max_time,
        None => true,
    }
}

/// The chunks that survive pruning for a range.
pub open spec fn relevant_to(range: TimeRange) -> spec_fn(Chunk) -> bool {
    |c: Chunk| !provably_irrelevant(c, range)
}

/// The pruned chunk list: the input list with every provably irrelevant
/// chunk removed, in input order.
pub open spec fn pruned_chunks(chunks: Seq<Chunk>, range: TimeRange) -> Seq<Chunk> {
    chunks.filter(relevant_to(range))
}

/// Law (pruning soundness): a chunk that could contain matching rows is
/// never pruned away — only provably irrelevant chunks are dropped.
pub proof fn lemma_prune_sound(chunks: Seq<Chunk>, range: TimeRange, k: int)
    requires
        0 <= k < chunks.len(),
        may_contain_matching_rows(chunks[k], range),
    ensures
        pruned_chunks(chunks, range).contains(chunks[k]),
{
    assert(relevant_to(range)(chunks[k]));
    chunks.lemma_filter_contains(relevant_to(range), k);
}

/// A stateless pruning handle for the chunks of a table.
#[derive(Clone, Copy, Debug)]
pub struct QuerierTableChunkPruner {}

impl QuerierTableChunkPruner {
    /// Keep exactly the chunks the metadata cannot rule out for the range.
    pub fn prune_chunks(&self, chunks: Vec<Chunk>, range: &TimeRange) -> (r: Vec<Chunk>)
        ensures
            r@ == pruned_chunks(chunks@, *range),
    {
        let ghost all = chunks@;
        let mut stack = chunks;
        let mut rev: Vec<Chunk> = Vec::new();
        proof {
            assert(rev@ =~= all.skip(stack@.len() as int).reverse());
        }
        while stack.len() > 0
            invariant
                stack@.len() <= all.len(),
                stack@ == all.take(stack@.len() as int),
                rev@ == all.skip(stack@.len() as int).reverse(),
            decreases stack@.len(),
        {
            let ghost len0 = stack@.len() as int;
            let c = stack.pop().unwrap();
            rev.push(c);
            proof {
                assert(stack@ =~= all.take(len0 - 1));
                assert(c == all[len0 - 1]);
                assert(rev@ =~= all.skip(len0 - 1).reverse());
            }
        }
        proof {
            assert(all.skip(0) =~= all);
            assert(rev@ == all.reverse());
        }
        let mut r: Vec<Chunk> = Vec::new();
        proof {
            assert(all.take(0).filter(relevant_to(*range)) =~= Seq::<Chunk>::empty());
        }
        while rev.len() > 0
            invariant
                rev@.len() <= all.len(),
                rev@ == all.skip(all.len() - rev@.len()).reverse(),
                r@ == pruned_chunks(all.take(all.len() - rev@.len()), *range),
            decreases rev@.len(),
        {
            let ghost i = all.len() - rev@.len();
            let c = rev.pop().unwrap();
            proof {
                assert(c == all.skip(i).reverse().last());
                assert(all.skip(i).reverse().last() == all.skip(i)[0]);
                assert(all.skip(i)[0] == all[i]);
                assert(rev@ =~= all.skip(i + 1).reverse());
            }
            let keep = !(match c.file.max_time {
                Some(t) => t < range.min_time,
                None => false,
            } || match c.file.min_time {
                Some(t) => t > range.max_time,
                None => false,
            });
            proof {
                assert(keep == relevant_to(*range)(all[i]));
            }
            if keep {
                r.push(c);
            }
            proof {
                lemma_filter_take_step(all, relevant_to(*range), i);
            }
        }
        proof {
            lemma_filter_take_all(all, relevant_to(*range));
        }
        r
    }
}

} // verus!
