//! The trial loop of one worker, as a state machine. The caller owns the
//! virtual machine: each iteration it asks [`Worker::plan_frame`] what to do,
//! carries the plan out and advances the machine, whose memory hooks it
//! forwards to [`Worker::read_memory`] and [`Worker::write_memory`].

use vstd::prelude::*;
use crate::hooks::Status;
use crate::profile::{profile_of, Game};

verus! {

/// Number of frame-parity changes in one period of the input signal.
pub const INPUT_PERIOD: u8 = 6;

/// Number of parity changes in each period during which the signal is held.
pub const INPUT_HELD: u8 = 3;

/// What to do about snapshots before the machine advances.
#[derive(Copy, Clone, Debug, PartialEq, Eq, Structural)]
pub enum SnapshotAction {
    /// Nothing: the worker has converged.
    Keep,
    /// Take a snapshot of the machine and hand it to
    /// [`Worker::store_capture`]: the randomness boundary is still ahead.
    Capture,
    /// Publish [`Worker::candidate`] as the shared warm-start snapshot: the
    /// boundary was crossed in the step before.
    Publish,
}

/// How the iteration ends.
#[derive(Copy, Clone, Debug, PartialEq, Eq, Structural)]
pub enum Outcome {
    /// Advance the machine by one step and plan again.
    Advance,
    /// The trial is complete with this decision code.
    Decided(u8),
    /// A stop was requested: drop the trial, record nothing.
    Abandoned,
}

/// What one iteration of the trial loop has to do, in this order: the
/// snapshot action, the input signal, the outcome.
#[derive(Copy, Clone, Debug)]
pub struct FramePlan {
    pub snapshot: SnapshotAction,
    /// `Some(pressed)` where the input signal is to be set.
    pub button: Option<bool>,
    pub outcome: Outcome,
}

/// Where a trial stands.
#[derive(Copy, Clone, Debug, PartialEq, Eq, Structural)]
pub enum Phase {
    /// No randomness seen yet, and the boundary is not known: every step
    /// is preceded by a snapshot.
    Searching,
    /// No randomness seen yet in this trial, but the worker has converged
    /// and started from the warm snapshot.
    Armed,
    /// Randomness was consumed; the decision is awaited.
    Running,
    /// The decision is latched.
    Decided,
}

/// The mathematical state of a worker.
pub struct WorkerState {
    pub status: Status,
    /// Whether this worker has found the randomness boundary once.
    pub converged: bool,
    /// The last snapshot taken while searching.
    pub candidate: Seq<u8>,
    /// Position in the period of the input signal.
    pub rapid_fire: u8,
    /// The frame parity last seen.
    pub odd_frame: bool,
}

impl WorkerState {
    pub open spec fn wf(self) -> bool {
        self.rapid_fire < INPUT_PERIOD
    }

    /// A worker that has run no trial yet.
    pub open spec fn fresh(game: Game, snapshot: Seq<u8>) -> WorkerState {
        WorkerState {
            status: Status { rng_hit: false, decision_made: 0, game },
            converged: false,
            candidate: snapshot,
            rapid_fire: 0,
            odd_frame: false,
        }
    }

    /// The state at the start of the next trial: what was learnt about the
    /// boundary stays, everything else starts over.
    pub open spec fn restarted(self) -> WorkerState {
        WorkerState {
            status: Status { rng_hit: false, decision_made: 0, game: self.status.game },
            rapid_fire: 0,
            odd_frame: false,
            ..self
        }
    }

    pub open spec fn phase(self) -> Phase {
        if self.status.decision_made != 0 {
            Phase::Decided
        } else if self.status.rng_hit {
            Phase::Running
        } else if self.converged {
            Phase::Armed
        } else {
            Phase::Searching
        }
    }

    /// The snapshot action of an iteration that is not stopped.
    pub open spec fn snapshot_action(self) -> SnapshotAction {
        if self.converged {
            SnapshotAction::Keep
        } else if self.status.rng_hit {
            SnapshotAction::Publish
        } else {
            SnapshotAction::Capture
        }
    }

    /// The position in the input period after one more parity change.
    pub open spec fn next_rapid_fire(self) -> u8 {
        ((self.rapid_fire + 1) % (INPUT_PERIOD as int)) as u8
    }

    /// One iteration of the trial loop: the state after it and the plan
    /// for the caller.
    pub open spec fn step(self, stop: bool, machine_odd_frame: bool) -> (WorkerState, FramePlan) {
        if stop {
            (
                self,
                FramePlan {
                    snapshot: SnapshotAction::Keep,
                    button: None,
                    outcome: Outcome::Abandoned,
                },
            )
        } else {
            let flipped = self.odd_frame != machine_odd_frame;
            (
                WorkerState {
                    converged: self.converged || self.status.rng_hit,
                    rapid_fire: if flipped {
                        self.next_rapid_fire()
                    } else {
                        self.rapid_fire
                    },
                    odd_frame: machine_odd_frame,
                    ..self
                },
                FramePlan {
                    snapshot: self.snapshot_action(),
                    button: if flipped {
                        Some(self.next_rapid_fire() < INPUT_HELD)
                    } else {
                        None
                    },
                    outcome: if self.status.decision_made != 0 {
                        Outcome::Decided(self.status.decision_made)
                    } else {
                        Outcome::Advance
                    },
                },
            )
        }
    }

    /// The state after the caller hands in a snapshot: it becomes the
    /// candidate while the worker is searching and is dropped afterwards.
    pub open spec fn captured(self, snapshot: Seq<u8>) -> WorkerState {
        if self.converged {
            self
        } else {
            WorkerState { candidate: snapshot, ..self }
        }
    }
}

/// A worker that has converged stays converged, through iterations and
/// from trial to trial, and is never again asked to take or to publish a
/// snapshot; what it is handed as a snapshot it drops.
pub proof fn lemma_converged_for_good(
    worker: WorkerState,
    stop: bool,
    machine_odd_frame: bool,
    snapshot: Seq<u8>,
)
    requires
        worker.converged,
    ensures
        worker.step(stop, machine_odd_frame).0.converged,
        worker.step(stop, machine_odd_frame).1.snapshot == SnapshotAction::Keep,
        worker.restarted().converged,
        worker.captured(snapshot) == worker,
{
}

/// A worker that is searching publishes in the first iteration after its
/// machine consumed randomness, and converges with it; until then every
/// iteration asks for a snapshot.
pub proof fn lemma_search_ends_at_boundary(worker: WorkerState, machine_odd_frame: bool)
    requires
        !worker.converged,
    ensures
        worker.status.rng_hit ==> worker.step(false, machine_odd_frame).1.snapshot
            == SnapshotAction::Publish && worker.step(false, machine_odd_frame).0.converged,
        !worker.status.rng_hit ==> worker.step(false, machine_odd_frame).1.snapshot
            == SnapshotAction::Capture && !worker.step(false, machine_odd_frame).0.converged,
{
}

/// How far a trial has come: searching and armed trials wait for the
/// randomness, running trials for the decision.
pub open spec fn progress(phase: Phase) -> nat {
    match phase {
        Phase::Searching | Phase::Armed => 0,
        Phase::Running => 1,
        Phase::Decided => 2,
    }
}

/// Within a trial nothing goes back: neither a read, nor a write, nor an
/// iteration of the loop, nor a snapshot takes a trial to an earlier phase,
/// and a trial that has its decision keeps it.
pub proof fn lemma_trial_never_goes_back(
    worker: WorkerState,
    address: u16,
    data: u8,
    image: Seq<u8>,
    pc: u16,
    bank: u16,
    stop: bool,
    machine_odd_frame: bool,
    snapshot: Seq<u8>,
)
    ensures
        ({
            let read = WorkerState { status: worker.status.after_read(address), ..worker };
            let written = WorkerState {
                status: worker.status.after_write(address, data, image, pc, bank),
                ..worker
            };
            let stepped = worker.step(stop, machine_odd_frame).0;
            let captured = worker.captured(snapshot);
            &&& progress(worker.phase()) <= progress(read.phase())
            &&& progress(worker.phase()) <= progress(written.phase())
            &&& progress(worker.phase()) == progress(stepped.phase())
            &&& worker.phase() == captured.phase()
            &&& worker.phase() == Phase::Decided ==> {
                &&& read.status.decision_made == worker.status.decision_made
                &&& written.status.decision_made == worker.status.decision_made
                &&& stepped.status.decision_made == worker.status.decision_made
                &&& captured.status.decision_made == worker.status.decision_made
            }
        }),
{
}

/// An iteration under a stop request drops the trial and changes nothing.
pub proof fn lemma_stop_abandons(worker: WorkerState, machine_odd_frame: bool)
    ensures
        worker.step(true, machine_odd_frame).0 == worker,
        worker.step(true, machine_odd_frame).1.outcome == Outcome::Abandoned,
        worker.step(true, machine_odd_frame).1.snapshot == SnapshotAction::Keep,
        worker.step(true, machine_odd_frame).1.button is None,
{
}

/// The input signal is held for three of every six parity changes: after
/// six changes the position is back where it was, and the signal was set
/// to held exactly where the position was below three.
pub proof fn lemma_input_duty_cycle(worker: WorkerState)
    requires
        worker.wf(),
    ensures
        ({
            let a = worker.step(false, !worker.odd_frame).0;
            let b = a.step(false, !a.odd_frame).0;
            let c = b.step(false, !b.odd_frame).0;
            let d = c.step(false, !c.odd_frame).0;
            let e = d.step(false, !d.odd_frame).0;
            let f = e.step(false, !e.odd_frame).0;
            &&& f.rapid_fire == worker.rapid_fire
            &&& (if a.rapid_fire < INPUT_HELD { 1int } else { 0int })
                + (if b.rapid_fire < INPUT_HELD { 1int } else { 0int })
                + (if c.rapid_fire < INPUT_HELD { 1int } else { 0int })
                + (if d.rapid_fire < INPUT_HELD { 1int } else { 0int })
                + (if e.rapid_fire < INPUT_HELD { 1int } else { 0int })
                + (if f.rapid_fire < INPUT_HELD { 1int } else { 0int }) == INPUT_HELD
        }),
{
}

/// One worker of the pool.
pub struct Worker {
    status: Status,
    converged: bool,
    candidate: Vec<u8>,
    rapid_fire: u8,
    odd_frame: bool,
}

impl View for Worker {
    type V = WorkerState;

    closed spec fn view(&self) -> WorkerState {
        WorkerState {
            status: self.status,
            converged: self.converged,
            candidate: self.candidate@,
            rapid_fire: self.rapid_fire,
            odd_frame: self.odd_frame,
        }
    }
}

impl Worker {
    #[verifier::type_invariant]
    spec fn inv(self) -> bool {
        self.rapid_fire < INPUT_PERIOD
    }

    /// A worker for `game` that starts from `snapshot`.
    pub fn new(game: Game, snapshot: Vec<u8>) -> (w: Worker)
        ensures
            w@ == WorkerState::fresh(game, snapshot@),
            w@.wf(),
    {
        Worker {
            status: Status::new(game),
            converged: false,
            candidate: snapshot,
            rapid_fire: 0,
            odd_frame: false,
        }
    }

    /// Starts the next trial. The caller restores the machine from the
    /// shared snapshot.
    pub fn begin_trial(&mut self)
        ensures
            final(self)@ == old(self)@.restarted(),
            final(self)@.wf(),
    {
        proof {
            use_type_invariant(&*self);
        }
        self.status = Status::new(self.status.game);
        self.rapid_fire = 0;
        self.odd_frame = false;
    }

    /// Plans one iteration of the trial loop. `stop` says whether a stop
    /// has been requested, `machine_odd_frame` is the machine's frame
    /// parity.
    pub fn plan_frame(&mut self, stop: bool, machine_odd_frame: bool) -> (plan: FramePlan)
        ensures
            (final(self)@, plan) == old(self)@.step(stop, machine_odd_frame),
            final(self)@.wf(),
    {
        proof {
            use_type_invariant(&*self);
        }
        if stop {
            return FramePlan {
                snapshot: SnapshotAction::Keep,
                button: None,
                outcome: Outcome::Abandoned,
            };
        }
        let snapshot = if self.converged {
            SnapshotAction::Keep
        } else if self.status.rng_hit {
            self.converged = true;
            SnapshotAction::Publish
        } else {
            SnapshotAction::Capture
        };
        let button = if self.odd_frame != machine_odd_frame {
            self.rapid_fire = (self.rapid_fire + 1) % INPUT_PERIOD;
            self.odd_frame = machine_odd_frame;
            Some(self.rapid_fire < INPUT_HELD)
        } else {
            None
        };
        let outcome = if self.status.decision_made != 0 {
            Outcome::Decided(self.status.decision_made)
        } else {
            Outcome::Advance
        };
        FramePlan { snapshot, button, outcome }
    }

    /// Takes the snapshot that a [`SnapshotAction::Capture`] asked for.
    pub fn store_capture(&mut self, snapshot: Vec<u8>)
        ensures
            final(self)@ == old(self)@.captured(snapshot@),
            final(self)@.wf(),
    {
        proof {
            use_type_invariant(&*self);
        }
        if !self.converged {
            self.candidate = snapshot;
        }
    }

    /// The snapshot to publish when the plan says so.
    pub fn candidate(&self) -> (snapshot: &Vec<u8>)
        ensures
            snapshot@ == self@.candidate,
    {
        &self.candidate
    }

    /// Forwards a memory read of the machine to the interception state.
    pub fn read_memory(&mut self, address: u16, original_data: u8) -> (supplied: u8)
        ensures
            final(self)@ == (WorkerState {
                status: old(self)@.status.after_read(address),
                ..old(self)@
            }),
            final(self)@.wf(),
            !profile_of(old(self)@.status.game).is_rng_port(address) ==> supplied == original_data,
    {
        proof {
            use_type_invariant(&*self);
        }
        let mut status = self.status;
        let supplied = status.read_memory(address, original_data);
        self.status = status;
        supplied
    }

    /// Forwards a memory read for which the random byte is given.
    pub fn supply_read(&mut self, address: u16, original_data: u8, drawn: u8) -> (supplied: u8)
        ensures
            final(self)@ == (WorkerState {
                status: old(self)@.status.after_read(address),
                ..old(self)@
            }),
            final(self)@.wf(),
            supplied == if profile_of(old(self)@.status.game).is_rng_port(address) {
                drawn
            } else {
                original_data
            },
    {
        proof {
            use_type_invariant(&*self);
        }
        let mut status = self.status;
        let supplied = status.supply_read(address, original_data, drawn);
        self.status = status;
        supplied
    }

    /// Forwards a memory write of the machine to the interception state.
    pub fn write_memory(&mut self, address: u16, data: u8, pc: u16, image: &[u8], bank: u16) -> (allow:
        bool)
        ensures
            allow,
            final(self)@ == (WorkerState {
                status: old(self)@.status.after_write(address, data, image@, pc, bank),
                ..old(self)@
            }),
            final(self)@.wf(),
    {
        proof {
            use_type_invariant(&*self);
        }
        let mut status = self.status;
        let allow = status.write_memory(address, data, pc, image, bank);
        self.status = status;
        allow
    }

    /// The interception state of the trial in progress.
    pub fn status(&self) -> (s: Status)
        ensures
            s == self@.status,
    {
        self.status
    }

    /// Whether this worker has found the randomness boundary.
    pub fn is_converged(&self) -> (r: bool)
        ensures
            r == self@.converged,
    {
        self.converged
    }

    /// Where the trial stands.
    pub fn phase(&self) -> (p: Phase)
        ensures
            p == self@.phase(),
    {
        if self.status.decision_made != 0 {
            Phase::Decided
        } else if self.status.rng_hit {
            Phase::Running
        } else if self.converged {
            Phase::Armed
        } else {
            Phase::Searching
        }
    }
}

} // verus!
