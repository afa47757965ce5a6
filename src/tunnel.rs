use vstd::prelude::*;

verus! {

/// Size of the buffer that each worker reads into: at most this many bytes
/// are forwarded per iteration.
pub const RELAY_BUFFER_SIZE: usize = 4096;

/// The way a worker moves bytes.
#[derive(Clone, Copy, Debug, PartialEq, Eq, Structural)]
pub enum Direction {
    TunToAccessory,
    AccessoryToTun,
}

impl Direction {
    /// The descriptor that a worker of this direction reads from.
    pub open spec fn source_of(self, tun: i32, accessory: i32) -> i32 {
        match self {
            Direction::TunToAccessory => tun,
            Direction::AccessoryToTun => accessory,
        }
    }

    /// The descriptor that a worker of this direction writes to.
    pub open spec fn sink_of(self, tun: i32, accessory: i32) -> i32 {
        match self {
            Direction::TunToAccessory => accessory,
            Direction::AccessoryToTun => tun,
        }
    }

    /// Picks `(source, sink)` among the two descriptors of a session.
    pub fn route(self, tun: i32, accessory: i32) -> (r: (i32, i32))
        ensures
            r.0 == self.source_of(tun, accessory),
            r.1 == self.sink_of(tun, accessory),
    {
        match self {
            Direction::TunToAccessory => (tun, accessory),
            Direction::AccessoryToTun => (accessory, tun),
        }
    }
}

/// Descriptor status flags with the non-blocking bit cleared, so that reads
/// on the descriptor wait for data.
pub fn blocking_flags(flags: i32, nonblock_bit: i32) -> (r: i32)
    ensures
        r == flags & !nonblock_bit,
{
    flags & !nonblock_bit
}

/// Why a session could not be started.
#[derive(Clone, Copy, Debug, PartialEq, Eq, Structural)]
pub enum StartError {
    /// A session is already running on this tunnel.
    AlreadyRunning,
    /// One of the two descriptors could not be set up for blocking I/O.
    HandleAcquisition,
}

impl StartError {
    /// A short description of the error.
    pub fn message(&self) -> (r: &'static str)
        ensures
            *self == StartError::AlreadyRunning ==> r@ == "already running"@,
            *self == StartError::HandleAcquisition ==> r@ == "handle acquisition failed"@,
    {
        match self {
            StartError::AlreadyRunning => "already running",
            StartError::HandleAcquisition => "handle acquisition failed",
        }
    }
}

/// Abstract state of a tunnel: whether a session runs, and how many spawned
/// workers have not been reclaimed yet.
pub ghost struct TunnelView {
    pub running: bool,
    pub workers: nat,
}

impl TunnelView {
    /// A running session has exactly its two workers; there are never more.
    pub open spec fn wf(self) -> bool {
        &&& self.workers <= 2
        &&& self.running ==> self.workers == 2
    }

    /// The error that `start` reports, if any.
    pub open spec fn start_error(self, tun_acquired: bool, accessory_acquired: bool) -> Option<
        StartError,
    > {
        if self.running {
            Some(StartError::AlreadyRunning)
        } else if !(tun_acquired && accessory_acquired) {
            Some(StartError::HandleAcquisition)
        } else {
            None
        }
    }

    pub open spec fn after_start(self, tun_acquired: bool, accessory_acquired: bool) -> TunnelView {
        if self.start_error(tun_acquired, accessory_acquired) is Some {
            self
        } else {
            TunnelView { running: true, workers: 2 }
        }
    }

    pub open spec fn after_stop(self) -> TunnelView {
        TunnelView { running: false, workers: 0 }
    }

    pub open spec fn after_worker_exit(self) -> TunnelView {
        TunnelView { running: false, ..self }
    }
}

/// Lifecycle of a relay session: the running flag that both workers consult,
/// and the count of workers that `stop` has to join.
pub struct Tunnel {
    running: bool,
    workers: usize,
}

impl View for Tunnel {
    type V = TunnelView;

    closed spec fn view(&self) -> TunnelView {
        TunnelView { running: self.running, workers: self.workers as nat }
    }
}

impl Tunnel {
    /// An idle tunnel with no workers.
    pub fn new() -> (r: Tunnel)
        ensures
            r@ == (TunnelView { running: false, workers: 0 }),
            r@.wf(),
    {
        Tunnel { running: false, workers: 0 }
    }

    /// Whether a session is running.
    pub fn is_started(&self) -> (r: bool)
        ensures
            r == self@.running,
    {
        self.running
    }

    /// Starts a session once both descriptors were set up for blocking I/O.
    /// On success the tunnel runs with two workers, and the result is the
    /// number of workers of an earlier session, ended by a fault, that must be
    /// joined before the new ones are spawned.
    pub fn start(&mut self, tun_acquired: bool, accessory_acquired: bool) -> (r: Result<
        usize,
        StartError,
    >)
        requires
            old(self)@.wf(),
        ensures
            final(self)@ == old(self)@.after_start(tun_acquired, accessory_acquired),
            final(self)@.wf(),
            r is Err <==> old(self)@.start_error(tun_acquired, accessory_acquired) is Some,
            r matches Err(e) ==> old(self)@.start_error(tun_acquired, accessory_acquired) == Some(
                e,
            ),
            r matches Ok(n) ==> n == old(self)@.workers,
    {
        if self.running {
            return Err(StartError::AlreadyRunning);
        }
        if !(tun_acquired && accessory_acquired) {
            return Err(StartError::HandleAcquisition);
        }
        let stale = self.workers;
        self.running = true;
        self.workers = 2;
        Ok(stale)
    }

    /// Ends the session: clears the running flag and hands back the number of
    /// workers to join. On an idle tunnel that number is zero, so stopping
    /// waits for nothing.
    pub fn stop(&mut self) -> (r: usize)
        requires
            old(self)@.wf(),
        ensures
            final(self)@ == old(self)@.after_stop(),
            final(self)@.wf(),
            r == old(self)@.workers,
            old(self)@.workers == 0 ==> r == 0,
    {
        let joined = self.workers;
        self.running = false;
        self.workers = 0;
        joined
    }

    /// A worker has left its loop, after a fault or on seeing the flag
    /// cleared: the session stops, and the other worker leaves at its next
    /// check of the flag.
    pub fn worker_exited(&mut self)
        requires
            old(self)@.wf(),
        ensures
            final(self)@ == old(self)@.after_worker_exit(),
            final(self)@.wf(),
    {
        self.running = false;
    }
}

/// Stopping an idle tunnel joins no worker and leaves it idle; stopping twice
/// is the same as stopping once.
pub proof fn lemma_stop_idempotent(t: TunnelView)
    requires
        t.wf(),
    ensures
        !t.running && t.workers == 0 ==> t.after_stop() == t,
        t.after_stop().after_stop() == t.after_stop(),
        t.after_stop().workers == 0,
{
}

/// Starting a running tunnel is rejected and keeps its two workers.
pub proof fn lemma_start_while_running_rejected(
    t: TunnelView,
    tun_acquired: bool,
    accessory_acquired: bool,
)
    requires
        t.wf(),
        t.running,
    ensures
        t.start_error(tun_acquired, accessory_acquired) == Some(StartError::AlreadyRunning),
        t.after_start(tun_acquired, accessory_acquired) == t,
        t.after_start(tun_acquired, accessory_acquired).workers == 2,
{
}

/// After a stop no worker is left to join, and a start with freshly
/// acquired descriptors succeeds with nothing stale to reclaim.
pub proof fn lemma_restart_after_stop(t: TunnelView)
    requires
        t.wf(),
    ensures
        t.after_stop().workers == 0,
        !t.after_stop().running,
        t.after_stop().start_error(true, true) is None,
        t.after_stop().after_start(true, true) == (TunnelView { running: true, workers: 2 }),
{
}

} // verus!
