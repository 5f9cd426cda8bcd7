//! One accepted connection: its scratch buffer and the bookkeeping of what is
//! pending in it.
//!
//! A `Connection` never touches the stream. It lends its buffer for a read,
//! offers the pending bytes for a write, and is told what the stream reported.

use crate::session::{Fault, Input, Phase, Session, CAPACITY};
use vstd::prelude::*;
use vstd::slice::slice_subrange;

verus! {

/// What the stream reported for the read or the write that was asked of it.
#[derive(Clone, Copy, Debug)]
pub enum Completion {
    /// The read put this many bytes at the start of the scratch buffer.
    Read(usize),
    /// The read failed.
    ReadFailed,
    /// The write took this many of the pending bytes.
    Wrote(usize),
    /// The write failed.
    WriteFailed,
}

/// A live or finished connection. Its view is the `Session` it has had so far.
pub struct Connection {
    buffer: [u8; CAPACITY],
    /// The pending bytes are `buffer[start..end]`.
    start: usize,
    end: usize,
    phase: Phase,
    received: Ghost<Seq<u8>>,
    echoed: Ghost<Seq<u8>>,
}

impl View for Connection {
    type V = Session;

    closed spec fn view(&self) -> Session {
        Session {
            phase: self.phase,
            pending: self.buffer@.subrange(self.start as int, self.end as int),
            received: self.received@,
            echoed: self.echoed@,
        }
    }
}

impl Connection {
    /// The whole scratch buffer, stale bytes included.
    pub closed spec fn scratch(&self) -> Seq<u8> {
        self.buffer@
    }

    /// The invariant of the type: the pending range lies in the buffer, is
    /// empty while a read is awaited, and the session is valid.
    pub closed spec fn wf(&self) -> bool {
        &&& self.start <= self.end <= CAPACITY
        &&& self.phase is Reading ==> self.end == 0
        &&& self@.valid()
    }

    /// What `done` means for the session: the bytes a read delivered are the
    /// first `count` bytes of the scratch buffer, and a read that claims more
    /// than the buffer holds has failed.
    pub open spec fn input(&self, done: Completion) -> Input {
        match done {
            Completion::Read(count) => if count <= CAPACITY {
                Input::Read(self.scratch().take(count as int))
            } else {
                Input::ReadFailed
            },
            Completion::ReadFailed => Input::ReadFailed,
            Completion::Wrote(count) => Input::Wrote(count as nat),
            Completion::WriteFailed => Input::WriteFailed,
        }
    }

    /// A well-formed connection has a valid session and a full-size buffer.
    pub proof fn lemma_wf(&self)
        requires
            self.wf(),
        ensures
            self@.valid(),
            self.scratch().len() == CAPACITY,
    {
    }

    /// A connection that has just been accepted: nothing read, nothing written.
    pub fn new() -> (conn: Connection)
        ensures
            conn.wf(),
            conn@ == Session::fresh(),
            conn.scratch().len() == CAPACITY,
    {
        Connection {
            buffer: [0u8; CAPACITY],
            start: 0,
            end: 0,
            phase: Phase::Reading,
            received: Ghost(Seq::empty()),
            echoed: Ghost(Seq::empty()),
        }
    }

    /// Where the session stands, and so what to ask of the stream next.
    pub fn phase(&self) -> (phase: Phase)
        ensures
            phase == self@.phase,
    {
        self.phase
    }

    /// How the session ended: `None` while it is live, `Ok` after an orderly
    /// shutdown by the peer, the fault otherwise.
    pub fn outcome(&self) -> (outcome: Option<Result<(), Fault>>)
        ensures
            outcome == self@.outcome(),
    {
        match self.phase {
            Phase::Closed => Some(Ok(())),
            Phase::Failed(fault) => Some(Err(fault)),
            _ => None,
        }
    }

    /// Lends the scratch buffer, all `CAPACITY` bytes of it, to be read into.
    /// The session is as it was when the loan ends; what the buffer then holds
    /// is what `handle` counts from.
    pub fn read_buffer(&mut self) -> (buffer: &mut [u8])
        requires
            old(self).wf(),
            old(self)@.phase is Reading,
        ensures
            buffer@ == old(self).scratch(),
            buffer@.len() == CAPACITY,
            final(buffer)@.len() == CAPACITY,
            final(self).scratch() == final(buffer)@,
            final(self)@ == old(self)@,
            final(self).wf(),
    {
        &mut self.buffer
    }

    /// The bytes to write back: those read and not yet written, and no stale
    /// byte beyond them. Empty unless the session is writing or failed while it
    /// was.
    pub fn pending(&self) -> (bytes: &[u8])
        requires
            self.wf(),
        ensures
            bytes@ == self@.pending,
    {
        slice_subrange(self.buffer.as_slice(), self.start, self.end)
    }

    /// Takes in what the stream reported and returns what to ask of it next.
    /// The session moves as `Session::step` says; the buffer keeps its bytes.
    pub fn handle(&mut self, done: Completion) -> (next: Phase)
        requires
            old(self).wf(),
        ensures
            final(self).wf(),
            final(self)@ == old(self)@.step(old(self).input(done)),
            final(self).scratch() == old(self).scratch(),
            next == final(self)@.phase,
    {
        match self.phase {
            Phase::Reading => match done {
                Completion::Read(count) => {
                    if count == 0 {
                        self.phase = Phase::Closed;
                    } else if count <= CAPACITY {
                        self.end = count;
                        self.phase = Phase::Writing;
                        self.received = Ghost(self.received@ + self.buffer@.take(count as int));
                    } else {
                        self.phase = Phase::Failed(Fault::Read);
                    }
                },
                Completion::ReadFailed => {
                    self.phase = Phase::Failed(Fault::Read);
                },
                _ => {},
            },
            Phase::Writing => match done {
                Completion::Wrote(count) => {
                    if count == 0 {
                        self.phase = Phase::Failed(Fault::WriteZero);
                    } else if count <= self.end - self.start {
                        self.echoed = Ghost(
                            self.echoed@ + self.buffer@.subrange(
                                self.start as int,
                                self.start + count,
                            ),
                        );
                        self.start = self.start + count;
                        if self.start == self.end {
                            self.start = 0;
                            self.end = 0;
                            self.phase = Phase::Reading;
                        }
                    } else {
                        self.phase = Phase::Failed(Fault::Write);
                    }
                },
                Completion::WriteFailed => {
                    self.phase = Phase::Failed(Fault::Write);
                },
                _ => {},
            },
            _ => {},
        }
        proof {
            old(self)@.lemma_step_valid(old(self).input(done));
            assert(self@ =~= old(self)@.step(old(self).input(done)));
        }
        self.phase
    }
}

} // verus!
