//! The model of one client session: what has been read from the peer, what has
//! been written back, and what is still waiting to be written.
//!
//! Everything here is ghost. `Connection` is the executable type whose view is a
//! `Session`.

use vstd::prelude::*;

verus! {

/// Size of the scratch buffer of a connection, and so the most that one read
/// can deliver.
pub const CAPACITY: usize = 10000;

/// Why a session was abandoned. A stream that reports more bytes than it was
/// given room for, or more than it was offered, has failed like one that
/// reports an error.
#[derive(Clone, Copy, Debug, PartialEq, Eq, Structural)]
pub enum Fault {
    /// The stream reported an error on a read.
    Read,
    /// The stream reported an error on a write.
    Write,
    /// The stream accepted none of the bytes it was offered.
    WriteZero,
}

/// Where a session stands. The phase also says what the stream is to do next.
#[derive(Clone, Copy, Debug, PartialEq, Eq, Structural)]
pub enum Phase {
    /// Nothing is pending: read up to `CAPACITY` bytes.
    Reading,
    /// Bytes are pending: write them back.
    Writing,
    /// The peer shut the stream down in good order.
    Closed,
    /// The session was abandoned.
    Failed(Fault),
}

/// What the stream answered to a read or a write.
pub enum Input {
    /// A read delivered these bytes; none at all means the peer has shut down.
    Read(Seq<u8>),
    /// A read failed.
    ReadFailed,
    /// A write took this many of the pending bytes.
    Wrote(nat),
    /// A write failed.
    WriteFailed,
}

/// One client session.
#[verifier::ext_equal]
pub struct Session {
    pub phase: Phase,
    /// Bytes read and not yet written back, oldest first.
    pub pending: Seq<u8>,
    /// Every byte read since the session began.
    pub received: Seq<u8>,
    /// Every byte written back since the session began.
    pub echoed: Seq<u8>,
}

impl Session {
    /// A session that has just been accepted.
    pub open spec fn fresh() -> Session {
        Session {
            phase: Phase::Reading,
            pending: Seq::empty(),
            received: Seq::empty(),
            echoed: Seq::empty(),
        }
    }

    /// What holds of every session: the bytes written back, followed by the
    /// pending ones, are the bytes read; and bytes are pending exactly while the
    /// session is writing, or was when it failed.
    pub open spec fn valid(self) -> bool {
        &&& self.received == self.echoed + self.pending
        &&& self.pending.len() <= CAPACITY
        &&& self.phase is Reading || self.phase is Closed ==> self.pending.len() == 0
        &&& self.phase is Writing ==> self.pending.len() > 0
    }

    /// True once the session is over, in good order or not.
    pub open spec fn finished(self) -> bool {
        self.phase is Closed || self.phase is Failed
    }

    /// How the session ended: `None` while it is live.
    pub open spec fn outcome(self) -> Option<Result<(), Fault>> {
        match self.phase {
            Phase::Closed => Some(Ok(())),
            Phase::Failed(fault) => Some(Err(fault)),
            _ => None,
        }
    }

    /// Whether `input` is a possible answer to what the session is waiting for.
    pub open spec fn answers(self, input: Input) -> bool {
        match self.phase {
            Phase::Reading => match input {
                Input::Read(data) => data.len() <= CAPACITY,
                Input::ReadFailed => true,
                _ => false,
            },
            Phase::Writing => match input {
                Input::Wrote(count) => count <= self.pending.len(),
                Input::WriteFailed => true,
                _ => false,
            },
            _ => false,
        }
    }

    /// The session abandoned for `fault`. What was pending stays on record.
    pub open spec fn fail(self, fault: Fault) -> Session {
        Session { phase: Phase::Failed(fault), ..self }
    }

    /// The session after `input`.
    ///
    /// While reading: no bytes close the session, up to `CAPACITY` bytes become
    /// pending, more is a failed read. While writing: a count of zero is fatal,
    /// a count up to the pending length moves that many bytes from pending to
    /// echoed, a larger count is a failed write. An input of the other kind, or
    /// any input once the session is over, changes nothing.
    pub open spec fn step(self, input: Input) -> Session {
        match self.phase {
            Phase::Reading => match input {
                Input::Read(data) => if data.len() == 0 {
                    Session { phase: Phase::Closed, ..self }
                } else if data.len() <= CAPACITY {
                    Session {
                        phase: Phase::Writing,
                        pending: data,
                        received: self.received + data,
                        ..self
                    }
                } else {
                    self.fail(Fault::Read)
                },
                Input::ReadFailed => self.fail(Fault::Read),
                _ => self,
            },
            Phase::Writing => match input {
                Input::Wrote(count) => if count == 0 {
                    self.fail(Fault::WriteZero)
                } else if count <= self.pending.len() {
                    Session {
                        phase: if count == self.pending.len() {
                            Phase::Reading
                        } else {
                            Phase::Writing
                        },
                        pending: self.pending.skip(count as int),
                        echoed: self.echoed + self.pending.take(count as int),
                        ..self
                    }
                } else {
                    self.fail(Fault::Write)
                },
                Input::WriteFailed => self.fail(Fault::Write),
                _ => self,
            },
            _ => self,
        }
    }

    /// The session after all of `inputs`, in order.
    pub open spec fn run(self, inputs: Seq<Input>) -> Session
        decreases inputs.len(),
    {
        if inputs.len() == 0 {
            self
        } else {
            self.run(inputs.drop_last()).step(inputs.last())
        }
    }

    /// Whether each of `inputs` answers what the session was waiting for when
    /// it arrived.
    pub open spec fn driven_by(self, inputs: Seq<Input>) -> bool
        decreases inputs.len(),
    {
        inputs.len() == 0 || (self.driven_by(inputs.drop_last()) && self.run(
            inputs.drop_last(),
        ).answers(inputs.last()))
    }
}

/// The bytes that the reads among `inputs` delivered, in order.
pub open spec fn payload(inputs: Seq<Input>) -> Seq<u8>
    decreases inputs.len(),
{
    if inputs.len() == 0 {
        Seq::empty()
    } else {
        payload(inputs.drop_last()) + match inputs.last() {
            Input::Read(data) => data,
            _ => Seq::empty(),
        }
    }
}

/// The sum of `counts`.
pub open spec fn total(counts: Seq<nat>) -> nat
    decreases counts.len(),
{
    if counts.len() == 0 {
        0
    } else {
        total(counts.drop_last()) + counts.last()
    }
}

/// Each of `counts` as the answer to a write.
pub open spec fn writes(counts: Seq<nat>) -> Seq<Input> {
    counts.map_values(|count: nat| Input::Wrote(count))
}

impl Session {
    /// A fresh session is valid.
    pub proof fn lemma_fresh_valid()
        ensures
            Session::fresh().valid(),
    {
    }

    /// No input makes a valid session invalid.
    pub proof fn lemma_step_valid(self, input: Input)
        requires
            self.valid(),
        ensures
            self.step(input).valid(),
    {
        if let Input::Wrote(count) = input {
            if self.phase is Writing && 0 < count <= self.pending.len() {
                let taken = self.pending.take(count as int);
                let rest = self.pending.skip(count as int);
                assert(self.echoed + self.pending == (self.echoed + taken) + rest);
            }
        }
    }

    /// No sequence of inputs makes a valid session invalid.
    pub proof fn lemma_run_valid(self, inputs: Seq<Input>)
        requires
            self.valid(),
        ensures
            self.run(inputs).valid(),
        decreases inputs.len(),
    {
        if inputs.len() > 0 {
            self.lemma_run_valid(inputs.drop_last());
            self.run(inputs.drop_last()).lemma_step_valid(inputs.last());
        }
    }

    /// A session that is over stays as it is, whatever arrives.
    pub proof fn lemma_finished_is_final(self, inputs: Seq<Input>)
        requires
            self.finished(),
        ensures
            self.run(inputs) == self,
        decreases inputs.len(),
    {
        if inputs.len() > 0 {
            self.lemma_finished_is_final(inputs.drop_last());
        }
    }

    /// What one read delivered is written back before the next read is taken:
    /// a session that awaits a read has echoed all it received, and one that
    /// still has bytes to write takes no read.
    pub proof fn lemma_echo_before_next_read(self, data: Seq<u8>)
        requires
            self.valid(),
        ensures
            self.phase is Reading ==> self.echoed == self.received,
            self.phase is Writing ==> self.step(Input::Read(data)) == self,
    {
    }

    /// A write is never repeated in vain: an answer to a write ends the session
    /// or leaves fewer bytes pending, so the pending bytes are written out, or
    /// the session fails, after no more writes than there are bytes.
    pub proof fn lemma_write_makes_progress(self, input: Input)
        requires
            self.phase is Writing,
            self.answers(input),
        ensures
            self.step(input).finished() || self.step(input).pending.len() < self.pending.len(),
    {
    }

    /// Partial writes add up: after writes of `counts` bytes, each at least one
    /// and no more than is pending in all, the first `total(counts)` pending
    /// bytes have been echoed, in order, and the rest is still pending.
    pub proof fn lemma_partial_writes(self, counts: Seq<nat>)
        requires
            self.valid(),
            self.phase is Writing,
            forall|i: int| 0 <= i < counts.len() ==> counts[i] >= 1,
            total(counts) <= self.pending.len(),
        ensures
            self.run(writes(counts)).echoed == self.echoed + self.pending.take(
                total(counts) as int,
            ),
            self.run(writes(counts)).pending == self.pending.skip(total(counts) as int),
            self.run(writes(counts)).received == self.received,
            self.run(writes(counts)).phase == if total(counts) == self.pending.len() {
                Phase::Reading
            } else {
                Phase::Writing
            },
        decreases counts.len(),
    {
        if counts.len() > 0 {
            let before = counts.drop_last();
            assert(writes(counts).drop_last() == writes(before));
            self.lemma_partial_writes(before);
        }
    }

    /// Echo fidelity. When a session that awaits a read is given between one
    /// and `CAPACITY` bytes, exactly those bytes are what it offers to write;
    /// and however the stream splits the writing, once every byte has been
    /// taken the session has echoed those bytes, in their order, after what it
    /// had echoed before, and awaits the next read.
    pub proof fn lemma_echo_fidelity(self, bytes: Seq<u8>, counts: Seq<nat>)
        requires
            self.valid(),
            self.phase is Reading,
            1 <= bytes.len() <= CAPACITY,
            forall|i: int| 0 <= i < counts.len() ==> counts[i] >= 1,
            total(counts) == bytes.len(),
        ensures
            self.step(Input::Read(bytes)).pending == bytes,
            self.step(Input::Read(bytes)).run(writes(counts)).phase is Reading,
            self.step(Input::Read(bytes)).run(writes(counts)).echoed == self.echoed + bytes,
            self.step(Input::Read(bytes)).run(writes(counts)).received == self.received + bytes,
    {
        self.step(Input::Read(bytes)).lemma_partial_writes(counts);
    }

    /// Nothing is lost, added or reordered, however the payload is chunked.
    /// After any inputs that answer what the session asked for, the bytes
    /// received are the old ones followed by what the reads delivered; the bytes
    /// echoed, followed by those still pending, are the same sequence; and
    /// whenever the session awaits a read or has closed, all of it was echoed.
    pub proof fn lemma_echo_is_payload(self, inputs: Seq<Input>)
        requires
            self.valid(),
            self.driven_by(inputs),
        ensures
            self.run(inputs).received == self.received + payload(inputs),
            self.run(inputs).echoed + self.run(inputs).pending == self.received + payload(
                inputs,
            ),
            self.run(inputs).phase is Reading || self.run(inputs).phase is Closed
                ==> self.run(inputs).echoed == self.received + payload(inputs),
        decreases inputs.len(),
    {
        if inputs.len() > 0 {
            self.lemma_echo_is_payload(inputs.drop_last());
        }
    }
}

} // verus!
