//! Decides, per chunk, which tombstones of its table must be materialized as
//! delete predicates at query time.

use crate::data::{DeletePredicate, ParquetFileId, ParquetFileRef, Tombstone, TombstoneId};
use crate::marks::ProcessedMarks;
use crate::seq_facts::{lemma_filter_take_all, lemma_filter_take_step, lemma_map_values_push};
use std::sync::Arc;
use vstd::prelude::*;

verus! {

/// Whether a tombstone must be applied to the rows of a file at query time.
///
/// A tombstone applies exactly when all three hold:
/// - it belongs to the file's sequencer: deletes never cross sequencer
///   boundaries;
/// - its sequence number is strictly greater than the file's largest sequence
///   number: a tombstone recorded at or before the file's newest row is
///   assumed already materialized by whichever process produced the file;
/// - the (file, tombstone) pair is not marked processed: a marked pair was
///   baked into the file by a separate process and must not be re-applied.
pub open spec fn tombstone_applies(
    file: ParquetFileRef,
    tomb: Tombstone,
    processed: Set<(ParquetFileId, TombstoneId)>,
) -> bool {
    &&& tomb.sequencer_id == file.sequencer_id
    &&& tomb.sequence_number.0 > file.max_sequence_number.0
    &&& !processed.contains((file.id, tomb.id))
}

/// `tombstone_applies` as a predicate value over tombstones, for one file and
/// one state of the processed marks.
pub open spec fn applies_to(
    file: ParquetFileRef,
    processed: Set<(ParquetFileId, TombstoneId)>,
) -> spec_fn(Tombstone) -> bool {
    |t: Tombstone| tombstone_applies(file, t, processed)
}

/// The delete predicate a tombstone carries.
pub open spec fn predicate_of() -> spec_fn(Tombstone) -> Arc<DeletePredicate> {
    |t: Tombstone| t.delete_predicate
}

/// The tombstones that must be applied to the file, in the order they were
/// listed.
pub open spec fn applicable_tombstones(
    file: ParquetFileRef,
    tombstones: Seq<Tombstone>,
    processed: Set<(ParquetFileId, TombstoneId)>,
) -> Seq<Tombstone> {
    tombstones.filter(applies_to(file, processed))
}

/// The delete predicates of the applicable tombstones, in listing order.
pub open spec fn resolved_predicates(
    file: ParquetFileRef,
    tombstones: Seq<Tombstone>,
    processed: Set<(ParquetFileId, TombstoneId)>,
) -> Seq<Arc<DeletePredicate>> {
    applicable_tombstones(file, tombstones, processed).map_values(predicate_of())
}

/// Compute the delete predicates that a query over the file must still
/// apply: one shared predicate per applicable tombstone, in listing order.
pub fn reconcile_deletes(
    file: &ParquetFileRef,
    tombstones: &Vec<Tombstone>,
    processed: &ProcessedMarks,
) -> (preds: Vec<Arc<DeletePredicate>>)
    ensures
        preds@ == resolved_predicates(*file, tombstones@, processed@),
{
    let mut preds: Vec<Arc<DeletePredicate>> = Vec::new();
    let n = tombstones.len();
    proof {
        assert(tombstones@.take(0).filter(applies_to(*file, processed@))
            =~= Seq::<Tombstone>::empty());
        assert(preds@ =~= resolved_predicates(*file, tombstones@.take(0), processed@));
    }
    for i in 0..n
        invariant
            n == tombstones@.len(),
            preds@ == resolved_predicates(*file, tombstones@.take(i as int), processed@),
    {
        let t = &tombstones[i];
        let applies = t.sequencer_id == file.sequencer_id
            && t.sequence_number.0 > file.max_sequence_number.0
            && !processed.contains(file.id, t.id);
        if applies {
            preds.push(share_predicate(t));
        }
        proof {
            assert(applies == applies_to(*file, processed@)(tombstones@[i as int]));
            lemma_filter_take_step(tombstones@, applies_to(*file, processed@), i as int);
            if applies {
                lemma_map_values_push(
                    applicable_tombstones(*file, tombstones@.take(i as int), processed@),
                    predicate_of(),
                    tombstones@[i as int],
                );
            }
        }
    }
    proof {
        lemma_filter_take_all(tombstones@, applies_to(*file, processed@));
    }
    preds
}

/// Every tombstone selected for a file genuinely applies to it: it shares the
/// file's sequencer, was recorded strictly after the file's newest row, and
/// its deletion is not already materialized in the file.
pub proof fn lemma_applicable_tombstones_apply(
    file: ParquetFileRef,
    tombstones: Seq<Tombstone>,
    processed: Set<(ParquetFileId, TombstoneId)>,
)
    ensures
        forall|k: int|
            0 <= k < applicable_tombstones(file, tombstones, processed).len()
                ==> tombstone_applies(
                file,
                #[trigger] applicable_tombstones(file, tombstones, processed)[k],
                processed,
            ),
{
    broadcast use vstd::seq_lib::group_filter_ensures;

}

/// Law (sequencer isolation): a tombstone from a different sequencer never
/// applies to a file, and the tombstones selected for a file all carry the
/// file's own sequencer id, whatever the processed marks say.
pub proof fn lemma_sequencer_isolation(
    file: ParquetFileRef,
    tombstones: Seq<Tombstone>,
    processed: Set<(ParquetFileId, TombstoneId)>,
)
    ensures
        forall|t: Tombstone|
            t.sequencer_id != file.sequencer_id ==> !tombstone_applies(file, t, processed),
        forall|k: int|
            0 <= k < applicable_tombstones(file, tombstones, processed).len()
                ==> (#[trigger] applicable_tombstones(file, tombstones, processed)[k]).sequencer_id
                == file.sequencer_id,
{
    lemma_applicable_tombstones_apply(file, tombstones, processed);
}

/// Law (applicability boundary): a tombstone recorded exactly at the file's
/// largest sequence number is not applied — the "at or before" side of the
/// boundary is inclusive, so only strictly later tombstones qualify.
pub proof fn lemma_applicability_boundary(
    file: ParquetFileRef,
    tombstones: Seq<Tombstone>,
    processed: Set<(ParquetFileId, TombstoneId)>,
)
    ensures
        forall|t: Tombstone|
            t.sequence_number.0 <= file.max_sequence_number.0 ==> !tombstone_applies(
                file,
                t,
                processed,
            ),
        forall|k: int|
            0 <= k < applicable_tombstones(file, tombstones, processed).len()
                ==> (#[trigger] applicable_tombstones(
                file,
                tombstones,
                processed,
            )[k]).sequence_number.0 > file.max_sequence_number.0,
{
    lemma_applicable_tombstones_apply(file, tombstones, processed);
}

/// Law (processed idempotence): once a (file, tombstone) pair is marked
/// processed, that tombstone no longer applies to that file and never appears
/// in the file's selection, while every other (file, tombstone) pair is
/// unaffected by the mark.
pub proof fn lemma_processed_idempotence(
    file: ParquetFileRef,
    tomb: Tombstone,
    tombstones: Seq<Tombstone>,
    processed: Set<(ParquetFileId, TombstoneId)>,
)
    ensures
        !tombstone_applies(file, tomb, processed.insert((file.id, tomb.id))),
        forall|k: int|
            0 <= k < applicable_tombstones(
                file,
                tombstones,
                processed.insert((file.id, tomb.id)),
            ).len() ==> (#[trigger] applicable_tombstones(
                file,
                tombstones,
                processed.insert((file.id, tomb.id)),
            )[k]).id != tomb.id,
        forall|f2: ParquetFileRef, t2: Tombstone|
            f2.id != file.id || t2.id != tomb.id ==> #[trigger] tombstone_applies(
                f2,
                t2,
                processed.insert((file.id, tomb.id)),
            ) == tombstone_applies(f2, t2, processed),
{
    lemma_applicable_tombstones_apply(file, tombstones, processed.insert((file.id, tomb.id)));
}

/// Law (mark monotonicity): the processed marks only ever grow, and growing
/// them can only stop a tombstone from applying, never make one apply. So
/// consulting a marks state newer than the snapshot is harmless: a deletion
/// skipped because of a fresh mark was already materialized, and nothing is
/// ever re-applied that an older state would have omitted.
pub proof fn lemma_marks_monotonic(
    file: ParquetFileRef,
    tomb: Tombstone,
    marks_then: Set<(ParquetFileId, TombstoneId)>,
    marks_now: Set<(ParquetFileId, TombstoneId)>,
)
    requires
        marks_then.subset_of(marks_now),
        tombstone_applies(file, tomb, marks_now),
    ensures
        tombstone_applies(file, tomb, marks_then),
{
}

/// A shared handle to the tombstone's delete predicate.
fn share_predicate(t: &Tombstone) -> (r: Arc<DeletePredicate>)
    ensures
        r == t.delete_predicate,
{
    crate::data::share_arc(&t.delete_predicate)
}

} // verus!
