//! What holds of every handle, stated over the states that the handle's
//! contracts speak of and proved from their definitions.
//!
//! The handle does not see the bytes of a file: the operating system puts
//! them in the caller's buffer. The statements on bytes below therefore
//! speak of the stretch of the file that a read covers, given where the
//! handle stands: the bytes that a system which reads at the descriptor's
//! offset hands out.

use crate::error::{FailureKind, HandleError};
use crate::handle::{ReadStep, SeekerView};
use crate::os::OsError;
use std::path::PathBuf;
use vstd::prelude::*;

verus! {

/// The handle after a run of read calls with the given outcomes, first to
/// last.
pub open spec fn after_reads(from: SeekerView, outcomes: Seq<Result<usize, OsError>>) -> SeekerView
    decreases outcomes.len(),
{
    if outcomes.len() == 0 {
        from
    } else {
        after_reads(from, outcomes.drop_last()).after_read(outcomes.last())
    }
}

/// The stretch of a file holding `content` that one read call covers when
/// the handle stands at `at`: as many bytes as the call read, from the
/// handle's position on; nothing for a call that read nothing.
pub open spec fn span(content: Seq<u8>, at: SeekerView, outcome: Result<usize, OsError>) -> Seq<u8> {
    content.subrange(at.position as int, at.after_read(outcome).position as int)
}

/// The stretches that a run of read calls covers, laid end to end in the
/// order of the calls.
pub open spec fn spans(
    content: Seq<u8>,
    from: SeekerView,
    outcomes: Seq<Result<usize, OsError>>,
) -> Seq<u8>
    decreases outcomes.len(),
{
    if outcomes.len() == 0 {
        Seq::empty()
    } else {
        spans(content, from, outcomes.drop_last()) + span(
            content,
            after_reads(from, outcomes.drop_last()),
            outcomes.last(),
        )
    }
}

/// A read call never moves the handle back, and it moves the handle forward
/// exactly when it read at least one byte; in particular a read of 0 bytes,
/// the sign of the end of the file, leaves the handle where it is.
pub proof fn lemma_read_moves_forward(at: SeekerView, outcome: Result<usize, OsError>)
    ensures
        at.position <= at.after_read(outcome).position,
        at.after_read(outcome).path == at.path,
        at.position < at.after_read(outcome).position <==> (outcome matches Ok(count)
            && count > 0),
        at.read_result(outcome) == Ok::<ReadStep, HandleError>(ReadStep::Done(0))
            ==> at.after_read(outcome) == at,
{
}

/// Over a run of read calls the position never decreases: after any number
/// of the calls the handle stands no further than after all of them.
pub proof fn lemma_reads_never_move_back(
    from: SeekerView,
    outcomes: Seq<Result<usize, OsError>>,
    earlier: int,
)
    requires
        0 <= earlier <= outcomes.len(),
    ensures
        from.position <= after_reads(from, outcomes.take(earlier)).position <= after_reads(
            from,
            outcomes,
        ).position,
    decreases outcomes.len(),
{
    if outcomes.len() == 0 {
        assert(outcomes.take(earlier) =~= outcomes);
    } else if earlier == outcomes.len() {
        assert(outcomes.take(earlier) =~= outcomes);
        lemma_reads_never_move_back(from, outcomes.drop_last(), 0);
    } else {
        assert(outcomes.drop_last().take(earlier) =~= outcomes.take(earlier));
        lemma_reads_never_move_back(from, outcomes.drop_last(), earlier);
    }
}

/// The reads of a handle walk the file in order and without gaps: laid end
/// to end, the stretches that a run of read calls covers are the bytes of
/// the file from where the handle stood before the run to where it stands
/// after it.
pub proof fn lemma_reads_cover_in_order(
    content: Seq<u8>,
    from: SeekerView,
    outcomes: Seq<Result<usize, OsError>>,
)
    requires
        after_reads(from, outcomes).position <= content.len(),
    ensures
        spans(content, from, outcomes) == content.subrange(
            from.position as int,
            after_reads(from, outcomes).position as int,
        ),
    decreases outcomes.len(),
{
    let covered = content.subrange(
        from.position as int,
        after_reads(from, outcomes).position as int,
    );
    if outcomes.len() == 0 {
        assert(spans(content, from, outcomes) =~= covered);
    } else {
        let before = outcomes.drop_last();
        assert(before.take(before.len() as int) =~= before);
        lemma_reads_never_move_back(from, before, before.len() as int);
        lemma_reads_cover_in_order(content, from, before);
        assert(spans(content, from, outcomes) =~= covered);
    }
}

/// From a handle that was just opened, the reads hand out the bytes of the
/// file in order, starting at its first byte.
pub proof fn lemma_reads_start_at_first_byte(
    content: Seq<u8>,
    path: PathBuf,
    outcomes: Seq<Result<usize, OsError>>,
)
    requires
        after_reads(SeekerView::opened(path), outcomes).position <= content.len(),
    ensures
        spans(content, SeekerView::opened(path), outcomes) == content.subrange(
            0,
            after_reads(SeekerView::opened(path), outcomes).position as int,
        ),
{
    lemma_reads_cover_in_order(content, SeekerView::opened(path), outcomes);
}

/// A duplicate stands at offset 0 and does not depend on where its source
/// stands: a seek on the source, whatever its outcome, changes nothing
/// about the duplicate, whether the duplicate was made before the seek or
/// is made after it.
pub proof fn lemma_duplicate_ignores_source_position(
    source: SeekerView,
    outcome: Result<u64, OsError>,
)
    ensures
        source.duplicated().position == 0,
        source.duplicated().path == source.path,
        source.after_seek(outcome).duplicated() == source.duplicated(),
{
}

/// Two duplicates of one handle, each moved to an offset of its own: each
/// covers the bytes of the file from its own offset on and ends just past
/// the bytes it read. Neither the source's position nor the other
/// duplicate's offset enters into where a duplicate reads.
pub proof fn lemma_duplicates_read_at_own_offsets(
    content: Seq<u8>,
    source: SeekerView,
    first_offset: u64,
    first_count: usize,
    second_offset: u64,
    second_count: usize,
)
    ensures
        ({
            let first = source.duplicated().after_seek(Ok(first_offset));
            let second = source.duplicated().after_seek(Ok(second_offset));
            &&& span(content, first, Ok(first_count)) == content.subrange(
                first_offset as int,
                first_offset + first_count,
            )
            &&& span(content, second, Ok(second_count)) == content.subrange(
                second_offset as int,
                second_offset + second_count,
            )
            &&& first.after_read(Ok(first_count)).position == first_offset + first_count
            &&& second.after_read(Ok(second_count)).position == second_offset + second_count
        }),
{
}

/// A seek that the operating system refuses is reported as `SeekFailure`
/// with the system's error, and the handle stays where it was.
pub proof fn lemma_refused_seek_keeps_position(at: SeekerView, cause: OsError)
    ensures
        at.after_seek(Err(cause)) == at,
        at.seek_result(Err(cause)) == Err::<u64, HandleError>(
            at.failure(FailureKind::SeekFailure, cause),
        ),
{
}

/// A seek to an offset before the first byte fails and leaves the handle
/// where it was. The one thing taken of the operating system is that a seek
/// which succeeds reports the offset that was asked for: an offset below 0
/// is none that it can report, so the seek was refused.
pub proof fn lemma_seek_before_first_byte_fails(
    at: SeekerView,
    target: int,
    outcome: Result<u64, OsError>,
)
    requires
        target < 0,
        outcome matches Ok(reached) ==> reached == target,
    ensures
        outcome is Err,
        at.seek_result(outcome) == Err::<u64, HandleError>(
            at.failure(FailureKind::SeekFailure, outcome->Err_0),
        ),
        at.after_seek(outcome) == at,
{
}

} // verus!
