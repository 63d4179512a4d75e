use vstd::prelude::*;

verus! {

/// The largest number of records that one poll hands out.
pub const MAX_POLL_SIZE: usize = 64;

/// What a record stream is, seen from outside: the records that are not yet
/// committed, and the cursors of the poll-then-commit protocol.
///
/// A record is text, and nothing is asked of what it holds.
///
/// Delivery is newest first. A producer puts its record at index 0 of the
/// buffer, in front of all that is queued, and a poll reads from the committed
/// offset on. So of two records in one batch the one produced later comes
/// first.
///
/// A poll leaves its batch in the buffer as the outstanding window. Records
/// produced after the poll stand in front of that window and push it back;
/// `produced_since_poll` counts them, so that a commit finds the batch again
/// and removes it and nothing else.
#[verifier::ext_equal]
pub struct StreamState {
    /// The backlog, in the order in which it is handed out.
    pub buffer: Seq<Seq<char>>,
    /// Where the next window starts, as an index into `buffer`.
    pub committed_offset: nat,
    /// Where the window of the last poll ended, as an index into the buffer
    /// as it stood at that poll, if the poll is not yet committed.
    pub pending_end: Option<nat>,
    /// How many records were produced since the last poll, while its window
    /// is outstanding.
    pub produced_since_poll: nat,
}

impl StreamState {
    /// The stream with no record, no commit and no poll.
    pub open spec fn empty() -> Self {
        StreamState {
            buffer: Seq::empty(),
            committed_offset: 0,
            pending_end: None,
            produced_since_poll: 0,
        }
    }

    /// The states a stream can be in.
    ///
    /// A commit removes its window from the buffer, so the committed offset
    /// always sits at the buffer's front. A backend that keeps what it has
    /// committed shows as its buffer what lies behind its committed offset.
    /// An outstanding window is what a poll handed out: behind the records
    /// produced since, `MAX_POLL_SIZE` records or all that the buffer held.
    /// Without an outstanding window no record counts as produced since.
    pub open spec fn valid(self) -> bool {
        &&& self.committed_offset == 0
        &&& match self.pending_end {
            Some(end) => {
                &&& self.produced_since_poll <= self.buffer.len()
                &&& end == if self.buffer.len() - self.produced_since_poll <= MAX_POLL_SIZE {
                    self.buffer.len() - self.produced_since_poll
                } else {
                    MAX_POLL_SIZE as int
                }
            },
            None => self.produced_since_poll == 0,
        }
    }

    /// Where a window starts: at the committed offset.
    pub open spec fn range_start(self) -> nat {
        self.committed_offset
    }

    /// Where a window ends.
    ///
    /// With `use_pending` it is the window of the last poll, counted in the
    /// buffer as it stood at that poll; it is empty where no poll is
    /// outstanding. Without, it is the window that a poll opens now:
    /// `MAX_POLL_SIZE` records from the committed offset on, or as many as
    /// the buffer holds.
    pub open spec fn range_end(self, use_pending: bool) -> nat {
        if use_pending {
            match self.pending_end {
                Some(end) => end,
                None => 0,
            }
        } else if self.committed_offset + MAX_POLL_SIZE <= self.buffer.len() {
            self.committed_offset + MAX_POLL_SIZE as nat
        } else {
            self.buffer.len()
        }
    }

    /// The batch that a poll hands out in this state.
    pub open spec fn window(self) -> Seq<Seq<char>> {
        self.buffer.subrange(self.range_start() as int, self.range_end(false) as int)
    }

    /// The records of the outstanding window, where they stand now: the
    /// window of the last poll, behind the records produced since. Empty
    /// where no poll is outstanding.
    pub open spec fn outstanding(self) -> Seq<Seq<char>> {
        self.buffer.subrange(
            (self.produced_since_poll + self.range_start()) as int,
            (self.produced_since_poll + self.range_end(true)) as int,
        )
    }

    /// The state after `record` was produced: it stands at the buffer's
    /// front, and the records behind it keep their order. Where a window is
    /// outstanding, the record counts as produced since the poll.
    pub open spec fn produce(self, record: Seq<char>) -> Self {
        StreamState {
            buffer: seq![record] + self.buffer,
            produced_since_poll: if self.pending_end is Some {
                self.produced_since_poll + 1
            } else {
                self.produced_since_poll
            },
            ..self
        }
    }

    /// The state after the records `records` were produced, `records[0]`
    /// first.
    pub open spec fn produce_all(self, records: Seq<Seq<char>>) -> Self
        decreases records.len(),
    {
        if records.len() == 0 {
            self
        } else {
            self.produce_all(records.drop_last()).produce(records.last())
        }
    }

    /// The state after a poll: the window that it handed out is the
    /// outstanding one, and nothing was produced since.
    pub open spec fn consume(self) -> Self {
        StreamState {
            pending_end: Some(self.range_end(false)),
            produced_since_poll: 0,
            ..self
        }
    }

    /// The state after a commit: the outstanding window is cut out of the
    /// buffer where it stands now, the records in front of it and behind it
    /// stay, the committed offset stays at the place where the window began,
    /// and no window is outstanding.
    pub open spec fn commit(self) -> Self {
        let from: int = (self.produced_since_poll + self.range_start()) as int;
        let to: int = (self.produced_since_poll + self.range_end(true)) as int;
        StreamState {
            buffer: self.buffer.subrange(0, from) + self.buffer.subrange(
                to,
                self.buffer.len() as int,
            ),
            pending_end: None,
            produced_since_poll: 0,
            ..self
        }
    }

    /// The state after one operation.
    pub open spec fn step(self, step: Step) -> Self {
        match step {
            Step::Produce(record) => self.produce(record),
            Step::Consume => self.consume(),
            Step::Commit => self.commit(),
        }
    }

    /// The state after the operations `steps`, one after the other.
    pub open spec fn run(self, steps: Seq<Step>) -> Self
        decreases steps.len(),
    {
        if steps.len() == 0 {
            self
        } else {
            self.run(steps.drop_last()).step(steps.last())
        }
    }
}

/// One operation on a stream.
pub enum Step {
    /// A record is produced.
    Produce(Seq<char>),
    /// A batch is polled.
    Consume,
    /// The last poll is committed.
    Commit,
}

/// The records that `steps` produce, in the order in which they are produced.
pub open spec fn produced(steps: Seq<Step>) -> Seq<Seq<char>>
    decreases steps.len(),
{
    if steps.len() == 0 {
        Seq::empty()
    } else {
        match steps.last() {
            Step::Produce(record) => produced(steps.drop_last()).push(record),
            _ => produced(steps.drop_last()),
        }
    }
}

} // verus!
