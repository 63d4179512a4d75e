use crate::error::RecordStreamError;
use crate::state::{StreamState, MAX_POLL_SIZE};
use vstd::prelude::*;

verus! {

/// A record stream of any backend: one producer adds records, one consumer
/// polls a batch and then commits it.
///
/// A backend shows its state as a [`StreamState`], keeps it valid, and moves
/// it only as the three operations say. An operation that fails leaves no
/// partial change behind. Whether an operation can fail is the backend's to
/// say.
pub trait RecordStream: View<V = StreamState> {
    /// Takes `record` into the stream, whatever it holds: the backlog grows
    /// by this one record, which will be handed out before all that is
    /// queued. An outstanding window keeps its records. A failure leaves the
    /// stream as it was.
    fn produce(&mut self, record: &str) -> (result: Result<(), RecordStreamError>)
        requires
            old(self)@.valid(),
        ensures
            final(self)@.valid(),
            result is Ok ==> final(self)@ == old(self)@.produce(record@),
            result is Ok ==> final(self)@.buffer.len() == old(self)@.buffer.len() + 1,
            result is Ok ==> final(self)@.outstanding() == old(self)@.outstanding(),
            result is Err ==> final(self)@ == old(self)@,
    ;

    /// Polls the next batch: the records from the committed offset on, at
    /// most `MAX_POLL_SIZE` of them, copied out of the stream. None where
    /// nothing is queued.
    ///
    /// The batch stays in the stream, as the outstanding window, until it is
    /// committed. Polling again before that starts at the same place, and
    /// hands out the same batch where nothing was produced in between. A
    /// failure leaves the stream as it was.
    fn consume(&mut self) -> (result: Result<Vec<String>, RecordStreamError>)
        requires
            old(self)@.valid(),
        ensures
            final(self)@.valid(),
            match result {
                Ok(batch) => {
                    &&& batch.deep_view() == old(self)@.window()
                    &&& batch@.len() == old(self)@.window().len()
                    &&& batch@.len() <= MAX_POLL_SIZE
                    &&& final(self)@ == old(self)@.consume()
                    &&& final(self)@.outstanding() == old(self)@.window()
                },
                Err(_) => final(self)@ == old(self)@,
            },
    ;

    /// Commits the batch of the last poll: its records, and no others, leave
    /// the stream for good. Records produced since that poll stay in front
    /// of the backlog, so the next poll hands them out first and none of the
    /// batch again. Without a poll since the last commit there is no
    /// outstanding window, and nothing changes.
    ///
    /// A commit that fails has either taken place in full or not at all.
    fn commit_last_consume(&mut self) -> (result: Result<(), RecordStreamError>)
        requires
            old(self)@.valid(),
        ensures
            final(self)@.valid(),
            result is Ok ==> final(self)@ == old(self)@.commit(),
            result is Ok ==> final(self)@.buffer == old(self)@.buffer.take(
                old(self)@.produced_since_poll as int,
            ) + old(self)@.buffer.skip(
                (old(self)@.produced_since_poll + old(self)@.outstanding().len()) as int,
            ),
            result is Err ==> final(self)@ == old(self)@ || final(self)@ == old(self)@.commit(),
            old(self)@.pending_end is None ==> final(self)@ == old(self)@,
    ;
}

} // verus!
