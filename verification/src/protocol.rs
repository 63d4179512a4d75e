use crate::state::{produced, Step, StreamState, MAX_POLL_SIZE};
use vstd::prelude::*;

verus! {

/// Every step leads from a valid state to a valid state, and in a valid state
/// the cursors are ordered and the outstanding window lies inside the buffer,
/// behind the records produced since the poll.
pub proof fn lemma_steps_keep_valid(state: StreamState, record: Seq<char>)
    requires
        state.valid(),
    ensures
        StreamState::empty().valid(),
        state.produce(record).valid(),
        state.consume().valid(),
        state.commit().valid(),
        state.committed_offset <= state.buffer.len(),
        state.pending_end matches Some(end) ==> state.committed_offset <= end <= MAX_POLL_SIZE
            && state.produced_since_poll + end <= state.buffer.len(),
{
}

/// A batch holds at most `MAX_POLL_SIZE` records: the whole backlog where it
/// is shorter than that, else its first `MAX_POLL_SIZE` records.
pub proof fn lemma_batch_is_bounded(state: StreamState)
    requires
        state.valid(),
    ensures
        state.window().len() <= MAX_POLL_SIZE,
        state.window().len() == if state.buffer.len() <= MAX_POLL_SIZE {
            state.buffer.len()
        } else {
            MAX_POLL_SIZE as nat
        },
        state.window() == state.buffer.take(state.window().len() as int),
{
}

/// Polling is a peek: a second poll, with no commit and no new record since
/// the first, hands out the same batch and changes nothing.
pub proof fn lemma_consume_is_idempotent(state: StreamState)
    requires
        state.valid(),
    ensures
        state.consume().window() == state.window(),
        state.consume().consume() == state.consume(),
{
}

/// A poll does not freeze the window: a record produced after it stands in
/// the next poll's batch, which starts where the last one started and ends
/// where the grown backlog allows.
pub proof fn lemma_window_follows_growth(state: StreamState, record: Seq<char>)
    requires
        state.valid(),
    ensures
        state.consume().produce(record).range_start() == state.range_start(),
        state.consume().produce(record).window().len() == if state.buffer.len() < MAX_POLL_SIZE {
            state.buffer.len() + 1
        } else {
            MAX_POLL_SIZE as nat
        },
        state.consume().produce(record).window()[0] == record,
{
}

/// Records are queued newest first and none is reordered: after `records`
/// were produced the buffer holds them in reverse, in front of what it held
/// before. Where a window is outstanding they all count as produced since
/// the poll, and the window is as it was.
pub proof fn lemma_produced_records_stand_in_front(state: StreamState, records: Seq<Seq<char>>)
    requires
        state.valid(),
    ensures
        state.produce_all(records).valid(),
        state.produce_all(records).buffer == records.reverse() + state.buffer,
        state.produce_all(records).committed_offset == state.committed_offset,
        state.produce_all(records).pending_end == state.pending_end,
        state.produce_all(records).produced_since_poll == if state.pending_end is Some {
            state.produced_since_poll + records.len()
        } else {
            state.produced_since_poll
        },
        state.produce_all(records).outstanding() == state.outstanding(),
    decreases records.len(),
{
    if records.len() > 0 {
        lemma_produced_records_stand_in_front(state, records.drop_last());
    }
}

/// The outstanding window is the batch of the last poll, whatever was
/// produced since.
pub proof fn lemma_outstanding_window_is_last_batch(state: StreamState, since: Seq<Seq<char>>)
    requires
        state.valid(),
    ensures
        state.consume().outstanding() == state.window(),
        state.consume().produce_all(since).outstanding() == state.window(),
{
    lemma_produced_records_stand_in_front(state.consume(), since);
}

/// A commit removes exactly the batch of the last poll, also where records
/// were produced between the poll and the commit. What is left is the
/// records produced since the poll, newest first, and behind them the backlog
/// that lay behind the batch. The next poll reads from there, so it hands out
/// none of the batch's records again.
pub proof fn lemma_commit_reclaims_batch(state: StreamState, since: Seq<Seq<char>>)
    requires
        state.valid(),
    ensures
        ({
            let batch = state.window();
            let after = state.consume().produce_all(since).commit();
            &&& after.valid()
            &&& after.buffer == since.reverse() + state.buffer.skip(batch.len() as int)
            &&& after.committed_offset == state.committed_offset
            &&& after.pending_end is None
            &&& after.window().len() <= since.len() + state.buffer.len() - batch.len()
            &&& forall|i: int|
                0 <= i < after.window().len() ==> #[trigger] after.window()[i] == if i
                    < since.len() {
                    since[since.len() - 1 - i]
                } else {
                    state.buffer[batch.len() + i - since.len()]
                }
        }),
{
    lemma_produced_records_stand_in_front(state.consume(), since);
}

/// A commit with no poll outstanding changes nothing: the backlog and the
/// committed offset stay as they are.
pub proof fn lemma_commit_without_poll_is_noop(state: StreamState)
    requires
        state.valid(),
        state.pending_end is None,
    ensures
        state.commit() == state,
{
}

/// Whatever is done to a stream, its state stays valid.
pub proof fn lemma_run_keeps_valid(state: StreamState, steps: Seq<Step>)
    requires
        state.valid(),
    ensures
        state.run(steps).valid(),
    decreases steps.len(),
{
    if steps.len() > 0 {
        lemma_run_keeps_valid(state, steps.drop_last());
    }
}

/// Whatever is done to a stream with no poll outstanding, its backlog of
/// before leaves from the front and in no other way: the buffer is then made
/// of records produced in the meantime, `parts.0`, and behind them the
/// backlog of before without its first `parts.1` records. The records that
/// count as produced since the last poll are among the first.
pub proof fn lemma_backlog_leaves_from_the_front(state: StreamState, steps: Seq<Step>) -> (parts: (
    Seq<Seq<char>>,
    nat,
))
    requires
        state.valid(),
        state.pending_end is None,
    ensures
        parts.1 <= state.buffer.len(),
        state.run(steps).buffer == parts.0 + state.buffer.skip(parts.1 as int),
        state.run(steps).produced_since_poll <= parts.0.len(),
        forall|i: int| 0 <= i < parts.0.len() ==> produced(steps).contains(#[trigger] parts.0[i]),
    decreases steps.len(),
{
    if steps.len() == 0 {
        (Seq::empty(), 0)
    } else {
        let earlier = steps.drop_last();
        let before = state.run(earlier);
        let parts = lemma_backlog_leaves_from_the_front(state, earlier);
        let fresh: Seq<Seq<char>> = parts.0;
        let gone: nat = parts.1;
        lemma_run_keeps_valid(state, earlier);
        assert forall|i: int| 0 <= i < fresh.len() implies produced(steps).contains(
            #[trigger] fresh[i],
        ) by {
            let k: int = choose|k: int|
                0 <= k < produced(earlier).len() && produced(earlier)[k] == fresh[i];
            assert(produced(steps)[k] == fresh[i]);
        }
        match steps.last() {
            Step::Produce(record) => {
                assert(produced(steps).last() == record);
                (seq![record] + fresh, gone)
            },
            Step::Consume => (fresh, gone),
            Step::Commit => {
                let from: int = before.produced_since_poll as int;
                let to: int = from + before.range_end(true);
                if to <= fresh.len() {
                    (fresh.take(from) + fresh.skip(to), gone)
                } else {
                    (fresh.take(from), (gone + to - fresh.len()) as nat)
                }
            },
        }
    }
}

/// Committed records do not return. Let a poll hand out a batch, let records
/// be produced, and let a commit follow. Where no record of the batch has an
/// equal behind the batch or among the records produced since the poll, no
/// record of the batch is in the stream again, whatever is done to it: no
/// later poll hands one out.
pub proof fn lemma_committed_records_do_not_return(
    state: StreamState,
    since: Seq<Seq<char>>,
    steps: Seq<Step>,
)
    requires
        state.valid(),
        forall|i: int, j: int|
            0 <= i < state.window().len() <= j < state.buffer.len() ==> state.buffer[i]
                != state.buffer[j],
        forall|i: int, j: int|
            0 <= i < state.window().len() && 0 <= j < since.len() ==> state.buffer[i] != since[j],
        forall|i: int, j: int|
            0 <= i < state.window().len() && 0 <= j < produced(steps).len() ==> state.buffer[i]
                != produced(steps)[j],
    ensures
        ({
            let later = state.consume().produce_all(since).commit().run(steps);
            &&& forall|i: int|
                0 <= i < later.buffer.len() ==> !state.window().contains(#[trigger] later.buffer[i])
            &&& forall|i: int|
                0 <= i < later.window().len() ==> !state.window().contains(#[trigger] later.window()[i])
        }),
{
    let after = state.consume().produce_all(since).commit();
    lemma_commit_reclaims_batch(state, since);
    lemma_run_keeps_valid(after, steps);
    lemma_backlog_leaves_from_the_front(after, steps);
}

} // verus!
