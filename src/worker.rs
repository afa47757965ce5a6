use vstd::prelude::*;
use crate::tunnel::{Direction, TunnelView};

verus! {

/// Where a worker stands in its loop.
#[derive(Clone, Copy, Debug, PartialEq, Eq, Structural)]
pub enum Phase {
    /// About to consult the running flag.
    Checking,
    /// Waiting for a read on its source.
    Reading,
    /// Holding a chunk that is to be written to its sink.
    Writing,
    /// Out of the loop for good.
    Finished,
}

/// What a read on the source gave.
#[derive(Clone, Copy, Debug, PartialEq, Eq, Structural)]
pub enum ReadOutcome {
    /// This many bytes were read into the buffer; zero means end of stream.
    Data(usize),
    /// The read failed.
    Failed,
}

/// Abstract state of a worker: its phase, the bytes it has read from its
/// source, those it has written to its sink, and the chunk in hand.
pub ghost struct WorkerView {
    pub phase: Phase,
    pub received: Seq<u8>,
    pub sent: Seq<u8>,
    pub pending: Seq<u8>,
}

/// The bytes that a read hands to the worker, if the stream goes on.
pub open spec fn chunk_of(buf: Seq<u8>, outcome: ReadOutcome) -> Option<Seq<u8>> {
    match outcome {
        ReadOutcome::Data(n) => if 0 < n && n <= buf.len() {
            Some(buf.subrange(0, n as int))
        } else {
            None
        },
        ReadOutcome::Failed => None,
    }
}

impl WorkerView {
    /// Outside a write, everything read has been written, in order; during a
    /// write, what was written followed by the chunk in hand is what was read.
    pub open spec fn wf(self) -> bool {
        &&& (self.phase == Phase::Checking || self.phase == Phase::Reading) ==> self.sent
            == self.received && self.pending.len() == 0
        &&& self.phase == Phase::Writing ==> self.sent + self.pending == self.received && 0
            < self.pending.len()
    }

    pub open spec fn after_check(self, running: bool) -> WorkerView {
        if self.phase != Phase::Checking {
            self
        } else if running {
            WorkerView { phase: Phase::Reading, ..self }
        } else {
            WorkerView { phase: Phase::Finished, ..self }
        }
    }

    pub open spec fn after_read(self, chunk: Option<Seq<u8>>) -> WorkerView {
        if self.phase != Phase::Reading {
            self
        } else {
            match chunk {
                Some(c) => WorkerView {
                    phase: Phase::Writing,
                    received: self.received + c,
                    pending: c,
                    ..self
                },
                None => WorkerView { phase: Phase::Finished, ..self },
            }
        }
    }

    pub open spec fn after_write(self, ok: bool) -> WorkerView {
        if self.phase != Phase::Writing {
            self
        } else if ok {
            WorkerView {
                phase: Phase::Checking,
                sent: self.sent + self.pending,
                pending: Seq::empty(),
                ..self
            }
        } else {
            WorkerView { phase: Phase::Finished, ..self }
        }
    }

    /// One full iteration that forwards `chunk` while the session runs.
    pub open spec fn after_relay(self, chunk: Seq<u8>) -> WorkerView {
        self.after_check(true).after_read(Some(chunk)).after_write(true)
    }

    /// Forwards each chunk of `chunks` in turn.
    pub open spec fn after_relay_all(self, chunks: Seq<Seq<u8>>) -> WorkerView
        decreases chunks.len(),
    {
        if chunks.len() == 0 {
            self
        } else {
            self.after_relay_all(chunks.drop_last()).after_relay(chunks.last())
        }
    }
}

/// All chunks of `chunks`, one after the other.
pub open spec fn concat(chunks: Seq<Seq<u8>>) -> Seq<u8>
    decreases chunks.len(),
{
    if chunks.len() == 0 {
        Seq::empty()
    } else {
        concat(chunks.drop_last()) + chunks.last()
    }
}

/// The decisions of one forwarding worker. The thread that runs it reads and
/// writes; this tells it, after each step, what comes next.
pub struct Worker {
    direction: Direction,
    phase: Phase,
    received: Ghost<Seq<u8>>,
    sent: Ghost<Seq<u8>>,
    pending: Ghost<Seq<u8>>,
}

impl View for Worker {
    type V = WorkerView;

    closed spec fn view(&self) -> WorkerView {
        WorkerView {
            phase: self.phase,
            received: self.received@,
            sent: self.sent@,
            pending: self.pending@,
        }
    }
}

impl Worker {
    pub closed spec fn spec_direction(&self) -> Direction {
        self.direction
    }

    /// A worker for `direction` that has moved nothing yet.
    pub fn new(direction: Direction) -> (r: Worker)
        ensures
            r@.phase == Phase::Checking,
            r@.received == Seq::<u8>::empty(),
            r@.sent == Seq::<u8>::empty(),
            r@.wf(),
            r.spec_direction() == direction,
    {
        Worker {
            direction,
            phase: Phase::Checking,
            received: Ghost(Seq::empty()),
            sent: Ghost(Seq::empty()),
            pending: Ghost(Seq::empty()),
        }
    }

    pub fn direction(&self) -> (r: Direction)
        ensures
            r == self.spec_direction(),
    {
        self.direction
    }

    pub fn phase(&self) -> (r: Phase)
        ensures
            r == self@.phase,
    {
        self.phase
    }

    /// Whether the worker has left its loop.
    pub fn is_finished(&self) -> (r: bool)
        ensures
            r == (self@.phase == Phase::Finished),
    {
        self.phase == Phase::Finished
    }

    /// Consults the running flag before a read: returns whether to read.
    pub fn check(&mut self, running: bool) -> (r: bool)
        requires
            old(self)@.wf(),
            old(self)@.phase == Phase::Checking,
        ensures
            final(self)@ == old(self)@.after_check(running),
            final(self)@.wf(),
            final(self).spec_direction() == old(self).spec_direction(),
            r == running,
    {
        if running {
            self.phase = Phase::Reading;
        } else {
            self.phase = Phase::Finished;
        }
        running
    }

    /// Takes the outcome of a read into `buf`: returns the number of leading
    /// bytes of `buf` to write to the sink, or `None` when the source is
    /// closed or failed and the worker leaves its loop.
    pub fn on_read(&mut self, buf: &[u8], outcome: ReadOutcome) -> (r: Option<usize>)
        requires
            old(self)@.wf(),
            old(self)@.phase == Phase::Reading,
        ensures
            final(self)@ == old(self)@.after_read(chunk_of(buf@, outcome)),
            final(self)@.wf(),
            final(self).spec_direction() == old(self).spec_direction(),
            r is Some <==> chunk_of(buf@, outcome) is Some,
            r matches Some(n) ==> chunk_of(buf@, outcome) == Some(buf@.subrange(0, n as int)),
            r matches Some(n) ==> outcome == ReadOutcome::Data(n),
    {
        match outcome {
            ReadOutcome::Data(n) => {
                if 0 < n && n <= buf.len() {
                    let ghost chunk = buf@.subrange(0, n as int);
                    self.phase = Phase::Writing;
                    self.received = Ghost(self.received@ + chunk);
                    self.pending = Ghost(chunk);
                    Some(n)
                } else {
                    self.phase = Phase::Finished;
                    None
                }
            },
            ReadOutcome::Failed => {
                self.phase = Phase::Finished;
                None
            },
        }
    }

    /// Takes the outcome of writing the chunk in hand: returns whether the
    /// loop goes on.
    pub fn on_write(&mut self, ok: bool) -> (r: bool)
        requires
            old(self)@.wf(),
            old(self)@.phase == Phase::Writing,
        ensures
            final(self)@ == old(self)@.after_write(ok),
            final(self)@.wf(),
            final(self).spec_direction() == old(self).spec_direction(),
            r == ok,
            ok ==> final(self)@.sent == final(self)@.received,
    {
        if ok {
            self.phase = Phase::Checking;
            self.sent = Ghost(self.sent@ + self.pending@);
            self.pending = Ghost(Seq::empty());
        } else {
            self.phase = Phase::Finished;
        }
        ok
    }
}

/// One iteration while the session runs writes to the sink exactly the chunk
/// that was read, after what came before.
pub proof fn lemma_relay_chunk(w: WorkerView, chunk: Seq<u8>)
    requires
        w.wf(),
        w.phase == Phase::Checking,
        0 < chunk.len(),
    ensures
        w.after_relay(chunk).wf(),
        w.after_relay(chunk).phase == Phase::Checking,
        w.after_relay(chunk).received == w.received + chunk,
        w.after_relay(chunk).sent == w.sent + chunk,
{
}

/// A stream read in non-empty chunks reaches the sink whole and in the order
/// it was read.
pub proof fn lemma_relay_stream(w: WorkerView, chunks: Seq<Seq<u8>>)
    requires
        w.wf(),
        w.phase == Phase::Checking,
        forall|i: int| 0 <= i < chunks.len() ==> 0 < #[trigger] chunks[i].len(),
    ensures
        w.after_relay_all(chunks).wf(),
        w.after_relay_all(chunks).phase == Phase::Checking,
        w.after_relay_all(chunks).sent == w.sent + concat(chunks),
        w.after_relay_all(chunks).received == w.received + concat(chunks),
    decreases chunks.len(),
{
    if chunks.len() > 0 {
        let init = chunks.drop_last();
        assert forall|i: int| 0 <= i < init.len() implies 0 < #[trigger] init[i].len() by {
            assert(init[i] == chunks[i]);
        }
        lemma_relay_stream(w, init);
        let v = w.after_relay_all(init);
        assert(0 < chunks[chunks.len() - 1].len());
        lemma_relay_chunk(v, chunks.last());
        assert(w.sent + concat(init) + chunks.last() == w.sent + concat(chunks));
        assert(w.received + concat(init) + chunks.last() == w.received + concat(chunks));
    }
}

/// When one worker leaves its loop, the session stops and the other worker,
/// wherever it stands, leaves its loop at its next check of the flag: after
/// its current read or write at most, never later.
pub proof fn lemma_fault_stops_sibling(t: TunnelView, sibling: WorkerView)
    requires
        t.wf(),
        t.running,
        sibling.wf(),
    ensures
        !t.after_worker_exit().running,
        t.after_worker_exit().workers == 2,
        sibling.phase == Phase::Checking ==> sibling.after_check(
            t.after_worker_exit().running,
        ).phase == Phase::Finished,
        sibling.phase == Phase::Reading ==> forall|c: Option<Seq<u8>>|
            (#[trigger] sibling.after_read(c)).phase == Phase::Finished || sibling.after_read(
                c,
            ).after_write(true).after_check(t.after_worker_exit().running).phase
                == Phase::Finished,
        sibling.phase == Phase::Writing ==> forall|ok: bool|
            (#[trigger] sibling.after_write(ok)).after_check(t.after_worker_exit().running).phase
                == Phase::Finished,
{
}

} // verus!
