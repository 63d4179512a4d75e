use crate::error::RecordStreamError;
use crate::state::{StreamState, MAX_POLL_SIZE};
use crate::stream::RecordStream;
use std::collections::VecDeque;
use std::ops::Range;
use vstd::prelude::*;

verus! {

/// A record stream that lives in memory and never fails.
///
/// It keeps the backlog in a queue and takes committed records out of it, so
/// its cursors count from the queue's front as it stood at the last poll.
/// `Default` gives the empty stream.
pub struct InMemRecordStream {
    /// The backlog; a new record goes to the front.
    queue: VecDeque<String>,
    /// The committed offset; unset means 0.
    next_index_to_consume: Option<usize>,
    /// The end of the outstanding window; unset where no poll is outstanding.
    last_consume_end_index: Option<usize>,
    /// The records that went to the front since the last poll, while its
    /// window is outstanding: the window stands behind them.
    produced_since_last_consume: usize,
}

impl View for InMemRecordStream {
    type V = StreamState;

    closed spec fn view(&self) -> StreamState {
        StreamState {
            buffer: self.queue.deep_view(),
            committed_offset: match self.next_index_to_consume {
                Some(start) => start as nat,
                None => 0,
            },
            pending_end: match self.last_consume_end_index {
                Some(end) => Some(end as nat),
                None => None,
            },
            produced_since_poll: self.produced_since_last_consume as nat,
        }
    }
}

impl Default for InMemRecordStream {
    /// The empty stream: no record, no commit, no poll.
    fn default() -> (stream: Self)
        ensures
            stream@ == StreamState::empty(),
    {
        InMemRecordStream {
            queue: VecDeque::new(),
            next_index_to_consume: None,
            last_consume_end_index: None,
            produced_since_last_consume: 0,
        }
    }
}

impl InMemRecordStream {
    /// The window `[start, end)` that a poll hands out now (`use_last_consume`
    /// is false) or that the last poll handed out (it is true). Both start at
    /// the committed offset. The first reaches over `MAX_POLL_SIZE` records
    /// or to the queue's end. The second is empty where no poll is
    /// outstanding; it counts from the queue's front as it stood at that
    /// poll, so the records produced since stand in front of it.
    pub fn get_consume_range(&self, use_last_consume: bool) -> (range: Range<usize>)
        requires
            self@.valid(),
        ensures
            range.start == self@.range_start(),
            range.end == self@.range_end(use_last_consume),
            range.start <= range.end <= self@.buffer.len(),
            use_last_consume ==> self@.produced_since_poll + range.end <= self@.buffer.len(),
    {
        let start: usize = self.next_index_to_consume.unwrap_or(0);
        let end: usize = if use_last_consume {
            self.last_consume_end_index.unwrap_or(0)
        } else {
            (start + MAX_POLL_SIZE).min(self.queue.len())
        };
        start..end
    }
}

/// Removes the records at `[start, end)` from `queue` and closes the gap.
fn remove_range(queue: &mut VecDeque<String>, start: usize, end: usize)
    requires
        start <= end <= old(queue)@.len(),
    ensures
        final(queue)@ == old(queue)@.subrange(0, start as int) + old(queue)@.subrange(
            end as int,
            old(queue)@.len() as int,
        ),
{
    let mut next: usize = start;
    while next < end
        invariant
            start <= next <= end <= old(queue)@.len(),
            queue@ == old(queue)@.subrange(0, start as int) + old(queue)@.subrange(
                next as int,
                old(queue)@.len() as int,
            ),
        decreases end - next,
    {
        queue.remove(start);
        next += 1;
    }
}

impl RecordStream for InMemRecordStream {
    /// Puts a copy of `record` at the front of the queue, and counts it
    /// where a window is outstanding. Never fails.
    fn produce(&mut self, record: &str) -> (result: Result<(), RecordStreamError>)
        ensures
            result is Ok,
    {
        self.queue.push_front(record.to_string());
        if self.last_consume_end_index.is_some() {
            assert(self.produced_since_last_consume < self.queue.len());
            self.produced_since_last_consume += 1;
        }
        Ok(())
    }

    /// Copies the records of the window out of the queue, remembers where
    /// the window ends, and starts counting anew what is produced since.
    /// Never fails.
    fn consume(&mut self) -> (result: Result<Vec<String>, RecordStreamError>)
        ensures
            result is Ok,
    {
        let range = self.get_consume_range(false);
        self.last_consume_end_index = Some(range.end);
        self.produced_since_last_consume = 0;
        let mut batch: Vec<String> = Vec::new();
        let mut index: usize = range.start;
        while index < range.end
            invariant
                range.start <= index <= range.end <= self.queue@.len(),
                batch@.len() == index - range.start,
                forall|i: int| 0 <= i < batch@.len() ==> batch@[i]@ == self.queue@[range.start + i]@,
            decreases range.end - index,
        {
            batch.push(self.queue[index].clone());
            index += 1;
        }
        Ok(batch)
    }

    /// Removes the window of the last poll from the queue, behind the
    /// records produced since, and forgets the window. Never fails.
    fn commit_last_consume(&mut self) -> (result: Result<(), RecordStreamError>)
        ensures
            result is Ok,
    {
        let range = self.get_consume_range(true);
        let shift: usize = self.produced_since_last_consume;
        assert(shift + range.end <= self.queue.len());
        remove_range(&mut self.queue, shift + range.start, shift + range.end);
        self.next_index_to_consume = Some(range.end - (range.end - range.start));
        self.last_consume_end_index = None;
        self.produced_since_last_consume = 0;
        Ok(())
    }
}

} // verus!
