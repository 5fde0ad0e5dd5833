//! The session worker: what it does when it wakes and after it has tried to
//! hand over a sample.
//!
//! The worker never sleeps or probes by itself. It answers each event with
//! the next thing to do, and the thread that runs it does the probing and
//! the sleeping.

use vstd::prelude::*;
use crate::channel::{send, LivenessFlag};
use crate::sampler::{OsContextState, Sample};

verus! {

/// Something that happened to a worker.
#[derive(Debug, Clone, Copy, PartialEq, Eq, Structural)]
pub enum WorkerEvent {
    /// The worker starts an iteration and has read the liveness flag.
    Woke { alive: bool },
    /// The worker has tried to send a sample; `delivered` is false when the
    /// receiving end is gone.
    Sent { delivered: bool },
}

/// What a worker is to do next.
#[derive(Debug, Clone, Copy, PartialEq, Eq, Structural)]
pub enum WorkerAction {
    /// Sample the probe with this tick counter and deliver the result.
    Probe { tick: u64 },
    /// Sleep this many milliseconds, then wake.
    Sleep { millis: u64 },
    /// Stop for good.
    Exit,
}

/// The part of a worker that decides: its tick counter and its cadence.
#[derive(Debug, Clone, Copy, PartialEq, Eq, Structural)]
pub struct Cadence {
    pub tick: u64,
    pub poll_interval_ms: u64,
}

/// The counter after `tick`; it wraps to zero after the largest value.
pub open spec fn next_tick(tick: u64) -> u64 {
    if tick == u64::MAX {
        0
    } else {
        (tick + 1) as u64
    }
}

impl Cadence {
    /// The state and the action that answer `event`.
    ///
    /// On waking, a worker probes if the flag is still set and exits
    /// otherwise. After a delivered sample it advances the counter and
    /// sleeps for one interval; after a failed send it exits.
    pub open spec fn react(self, event: WorkerEvent) -> (Cadence, WorkerAction) {
        match event {
            WorkerEvent::Woke { alive } => if alive {
                (self, WorkerAction::Probe { tick: self.tick })
            } else {
                (self, WorkerAction::Exit)
            },
            WorkerEvent::Sent { delivered } => if delivered {
                (
                    Cadence { tick: next_tick(self.tick), poll_interval_ms: self.poll_interval_ms },
                    WorkerAction::Sleep { millis: self.poll_interval_ms },
                )
            } else {
                (self, WorkerAction::Exit)
            },
        }
    }

    /// A cadence at tick zero.
    pub fn new(poll_interval_ms: u64) -> (cadence: Cadence)
        ensures
            cadence == (Cadence { tick: 0, poll_interval_ms }),
    {
        Cadence { tick: 0, poll_interval_ms }
    }

    /// Answers `event`: updates the counter and returns what to do next.
    pub fn step(&mut self, event: WorkerEvent) -> (action: WorkerAction)
        ensures
            (*final(self), action) == old(self).react(event),
    {
        match event {
            WorkerEvent::Woke { alive } => {
                if alive {
                    WorkerAction::Probe { tick: self.tick }
                } else {
                    WorkerAction::Exit
                }
            },
            WorkerEvent::Sent { delivered } => {
                if delivered {
                    self.tick = self.tick.wrapping_add(1);
                    WorkerAction::Sleep { millis: self.poll_interval_ms }
                } else {
                    WorkerAction::Exit
                }
            },
        }
    }
}

/// One session's worker: the sending end of the session's channel, a handle
/// to its liveness flag, and its cadence.
pub struct Worker {
    tx: crossbeam_channel::Sender<Sample>,
    alive: LivenessFlag,
    cadence: Cadence,
}

impl View for Worker {
    type V = Cadence;

    closed spec fn view(&self) -> Cadence {
        self.cadence
    }
}

impl Worker {
    /// The liveness flag that this worker reads when it wakes.
    pub closed spec fn flag(&self) -> LivenessFlag {
        self.alive
    }

    /// The sending end into which this worker delivers its samples.
    pub closed spec fn sender(&self) -> crossbeam_channel::Sender<Sample> {
        self.tx
    }

    /// A worker at tick zero that sends into `tx` and obeys `alive`.
    pub(crate) fn new(
        tx: crossbeam_channel::Sender<Sample>,
        alive: LivenessFlag,
        poll_interval_ms: u64,
    ) -> (worker: Worker)
        ensures
            worker@ == (Cadence { tick: 0, poll_interval_ms }),
            worker.flag() == alive,
            worker.sender() == tx,
    {
        Worker { tx, alive, cadence: Cadence::new(poll_interval_ms) }
    }

    /// The tick counter that the next sample will carry.
    pub fn tick(&self) -> (tick: u64)
        ensures
            tick == self@.tick,
    {
        self.cadence.tick
    }

    /// The pause between two samples, in milliseconds.
    pub fn poll_interval_ms(&self) -> (millis: u64)
        ensures
            millis == self@.poll_interval_ms,
    {
        self.cadence.poll_interval_ms
    }

    /// Starts an iteration: reads the liveness flag and says whether to probe
    /// or to exit. The flag belongs to another thread as well, so either
    /// answer may come.
    pub fn wake(&self) -> (action: WorkerAction)
        ensures
            action == (WorkerAction::Probe { tick: self@.tick }) || action == WorkerAction::Exit,
            exists|alive: bool|
                (self@, action) == #[trigger] self@.react(WorkerEvent::Woke { alive }),
    {
        let alive = self.alive.is_set();
        let mut cadence = self.cadence;
        let action = cadence.step(WorkerEvent::Woke { alive });
        assert((self@, action) == self@.react(WorkerEvent::Woke { alive }));
        action
    }

    /// Hands `state` to the session and says what follows. The record is
    /// sent as [`OsContextState::filled`] gives it, so a well-formed record
    /// is sent unchanged and no other is sent unfilled. If the channel took
    /// it, the counter advances and the worker is to sleep one interval; if
    /// the session is gone, the worker is to exit and the counter stays.
    pub fn deliver(&mut self, state: OsContextState) -> (action: WorkerAction)
        ensures
            final(self).flag() == old(self).flag(),
            final(self).sender() == old(self).sender(),
            exists|delivered: bool|
                (final(self)@, action) == #[trigger] old(self)@.react(
                    WorkerEvent::Sent { delivered },
                ),
    {
        let sample = Sample::seal(state.filled());
        let delivered = send(&self.tx, sample);
        let action = self.cadence.step(WorkerEvent::Sent { delivered });
        assert((self@, action) == old(self)@.react(WorkerEvent::Sent { delivered }));
        action
    }
}

/// A worker that finds its flag cleared, or its channel closed, exits
/// without advancing its counter: it produces nothing further.
pub proof fn lemma_stop_is_final(cadence: Cadence)
    ensures
        cadence.react(WorkerEvent::Woke { alive: false }) == (cadence, WorkerAction::Exit),
        cadence.react(WorkerEvent::Sent { delivered: false }) == (cadence, WorkerAction::Exit),
{
}

/// Each delivered sample advances the counter by one, wrapping at the top,
/// and is followed by a sleep of exactly one interval. The sample asked for
/// on waking carries the current counter.
pub proof fn lemma_one_tick_per_sample(cadence: Cadence)
    ensures
        cadence.react(WorkerEvent::Woke { alive: true }) == (
            cadence,
            WorkerAction::Probe { tick: cadence.tick },
        ),
        cadence.react(WorkerEvent::Sent { delivered: true }).0.tick == (cadence.tick + 1) % (
        u64::MAX + 1),
        cadence.react(WorkerEvent::Sent { delivered: true }).0.poll_interval_ms
            == cadence.poll_interval_ms,
        cadence.react(WorkerEvent::Sent { delivered: true }).1 == (WorkerAction::Sleep {
            millis: cadence.poll_interval_ms,
        }),
{
}

} // verus!
