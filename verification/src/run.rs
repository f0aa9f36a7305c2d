//! Runs of the whole system, taken one event at a time: the shared state of a
//! simulator, the workers that it handed out, and what the workers see of
//! their machines. What holds of every run is proved here.
//!
//! A worker follows the trial loop: each iteration is one
//! [`Event::Frame`], a trial that ends in a decision is put to the budget in
//! the same step, and a worker whose trial was recorded starts its next trial
//! at once.

use vstd::prelude::*;
use vstd::set_lib::lemma_int_range;
use crate::profile::Game;
use crate::simulator::SimulatorState;
use crate::tally::{
    count_of,
    lemma_count_le_total,
    lemma_recorded_total,
    lemma_tally_of,
    lemma_total_below_empty,
    occurrences,
    tally_of,
    total_of,
    CODES,
};
use crate::trial::{Outcome, WorkerState};

verus! {

/// The state of a run.
pub struct System {
    pub simulator: SimulatorState,
    /// The workers that are alive, by number.
    pub workers: Map<int, WorkerState>,
    /// The decision of every trial that was completed, in order, whether
    /// it was recorded or not.
    pub completed: Seq<u8>,
    /// How many completed trials the budget has refused.
    pub refusals: nat,
}

/// One step of a run.
pub enum Event {
    /// The pool is started with this many workers.
    Start { thread_count: usize },
    /// The run is stopped.
    Stop,
    /// A worker's machine reads memory.
    Read { worker: int, address: u16 },
    /// A worker's machine writes memory, with the program counter and the
    /// active bank at that moment.
    Write { worker: int, address: u16, data: u8, pc: u16, bank: u16 },
    /// A worker takes a snapshot of its machine.
    Capture { worker: int, snapshot: Seq<u8> },
    /// A worker goes through one iteration of its trial loop.
    Frame { worker: int, machine_odd_frame: bool },
}

/// How many of `completed` trials a budget admits: all of them without a
/// cap, else no more than the cap.
pub open spec fn admitted_len(cap: Option<u64>, completed: nat) -> nat {
    match cap {
        Some(cap) => if completed <= cap {
            completed
        } else {
            cap as nat
        },
        None => completed,
    }
}

impl System {
    /// The state before anything has happened.
    pub open spec fn initial(simulator: SimulatorState) -> System {
        System { simulator, workers: Map::empty(), completed: Seq::empty(), refusals: 0 }
    }

    pub open spec fn cap(self) -> Option<u64> {
        self.simulator.aggregator.budget.cap
    }

    /// The decisions that the budget admitted.
    pub open spec fn admitted(self) -> Seq<u8> {
        self.completed.take(admitted_len(self.cap(), self.completed.len()) as int)
    }

    pub open spec fn worker_wf(self, worker: WorkerState) -> bool {
        &&& worker.wf()
        &&& worker.status.game == self.simulator.game
        &&& worker.converged ==> self.simulator.cache.warm
    }

    /// What holds of every state that a run reaches.
    pub open spec fn wf(self) -> bool {
        &&& self.simulator.wf()
        &&& self.workers.dom().finite()
        &&& self.workers.dom().len() == self.simulator.running
        &&& self.simulator.stop ==> self.simulator.running == 0
        &&& forall|i: int| self.workers.dom().contains(i) ==> self.worker_wf(#[trigger] self.workers[i])
        &&& self.simulator.aggregator.counts == tally_of(self.admitted())
        &&& self.cap() is Some ==> self.simulator.aggregator.budget.count == admitted_len(
            self.cap(),
            self.completed.len(),
        )
        &&& self.refusals > 0 ==> self.simulator.aggregator.budget.exhausted()
    }

    /// The decision that a worker's next iteration would complete its
    /// trial with, if it would complete it.
    pub open spec fn pending(self, worker: int, machine_odd_frame: bool) -> Option<u8> {
        match self.workers[worker].step(self.simulator.stop, machine_odd_frame).1.outcome {
            Outcome::Decided(code) => Some(code),
            _ => None,
        }
    }

    /// Whether an event can happen in this state. The pool is started only
    /// while no worker is alive, only a worker that is alive does anything,
    /// and a trial is completed only while its code's count has room.
    pub open spec fn enabled(self, event: Event) -> bool {
        match event {
            Event::Start { .. } => !self.simulator.is_running(),
            Event::Stop => true,
            Event::Read { worker, .. } => self.workers.dom().contains(worker),
            Event::Write { worker, .. } => self.workers.dom().contains(worker),
            Event::Capture { worker, .. } => self.workers.dom().contains(worker),
            Event::Frame { worker, machine_odd_frame } => {
                &&& self.workers.dom().contains(worker)
                &&& self.pending(worker, machine_odd_frame) matches Some(code)
                    ==> self.simulator.aggregator.has_room(code)
            },
        }
    }

    /// The state after one iteration of a worker's trial loop.
    pub open spec fn frame(self, worker: int, machine_odd_frame: bool) -> System {
        let before = self.workers[worker];
        let (after, plan) = before.step(self.simulator.stop, machine_odd_frame);
        let shared = self.simulator.after_frame(plan, before.candidate);
        match plan.outcome {
            Outcome::Advance => System {
                simulator: shared,
                workers: self.workers.insert(worker, after),
                ..self
            },
            Outcome::Abandoned => System {
                simulator: shared,
                workers: self.workers.remove(worker),
                ..self
            },
            Outcome::Decided(code) => {
                let (settled, was_recorded) = shared.completed(code);
                System {
                    simulator: settled,
                    workers: if was_recorded {
                        self.workers.insert(worker, after.restarted())
                    } else {
                        self.workers.remove(worker)
                    },
                    completed: self.completed.push(code),
                    refusals: if was_recorded {
                        self.refusals
                    } else {
                        self.refusals + 1
                    },
                }
            },
        }
    }

    /// The state after an event. An event that cannot happen changes
    /// nothing.
    pub open spec fn step(self, event: Event) -> System {
        if !self.enabled(event) {
            self
        } else {
            match event {
                Event::Start { thread_count } => System {
                    simulator: self.simulator.started(thread_count),
                    workers: Map::new(
                        |i: int| 0 <= i < thread_count,
                        |i: int|
                            WorkerState::fresh(self.simulator.game, self.simulator.cache.snapshot),
                    ),
                    ..self
                },
                Event::Stop => if self.simulator.is_running() {
                    System { simulator: self.simulator.stopped(), workers: Map::empty(), ..self }
                } else {
                    self
                },
                Event::Read { worker, address } => System {
                    workers: self.workers.insert(
                        worker,
                        WorkerState {
                            status: self.workers[worker].status.after_read(address),
                            ..self.workers[worker]
                        },
                    ),
                    ..self
                },
                Event::Write { worker, address, data, pc, bank } => System {
                    workers: self.workers.insert(
                        worker,
                        WorkerState {
                            status: self.workers[worker].status.after_write(
                                address,
                                data,
                                self.simulator.rom,
                                pc,
                                bank,
                            ),
                            ..self.workers[worker]
                        },
                    ),
                    ..self
                },
                Event::Capture { worker, snapshot } => System {
                    workers: self.workers.insert(worker, self.workers[worker].captured(snapshot)),
                    ..self
                },
                Event::Frame { worker, machine_odd_frame } => self.frame(worker, machine_odd_frame),
            }
        }
    }

    /// The state after a sequence of events.
    pub open spec fn run(self, events: Seq<Event>) -> System
        decreases events.len(),
    {
        if events.len() == 0 {
            self
        } else {
            self.run(events.drop_last()).step(events.last())
        }
    }
}

/// A simulator as construction leaves it is a well-formed start of a run.
pub proof fn lemma_initial_wf(game: Game, rom: Seq<u8>, base: Seq<u8>, cap: Option<u64>)
    ensures
        System::initial(SimulatorState::initial(game, rom, base, cap)).wf(),
        System::initial(SimulatorState::initial(game, rom, base, cap)).cap() == cap,
{
    lemma_total_below_empty(CODES as nat);
}

/// Starting the pool keeps the state well-formed.
proof fn lemma_start_wf(system: System, thread_count: usize)
    requires
        system.wf(),
        system.enabled(Event::Start { thread_count }),
    ensures
        system.step(Event::Start { thread_count }).wf(),
{
    let after = system.step(Event::Start { thread_count });
    lemma_int_range(0, thread_count as int);
    assert(after.workers.dom() =~= vstd::set_lib::set_int_range(0, thread_count as int));
}

/// Stopping keeps the state well-formed.
proof fn lemma_stop_wf(system: System)
    requires
        system.wf(),
    ensures
        system.step(Event::Stop).wf(),
{
}

/// What a machine does to one worker keeps the state well-formed.
proof fn lemma_hook_wf(system: System, event: Event)
    requires
        system.wf(),
        system.enabled(event),
        event is Read || event is Write || event is Capture,
    ensures
        system.step(event).wf(),
{
}

/// One iteration of a trial loop keeps the state well-formed.
proof fn lemma_frame_wf(system: System, worker: int, machine_odd_frame: bool)
    requires
        system.wf(),
        system.enabled(Event::Frame { worker, machine_odd_frame }),
    ensures
        system.frame(worker, machine_odd_frame).wf(),
{
    broadcast use vstd::set::group_set_axioms;

    let after = system.frame(worker, machine_odd_frame);
    let before = system.workers[worker];
    let plan = before.step(system.simulator.stop, machine_odd_frame).1;
    if let Outcome::Decided(code) = plan.outcome {
        let shared = system.simulator.after_frame(plan, before.candidate);
        let counts = system.simulator.aggregator.counts;
        assert(system.completed.push(code).drop_last() =~= system.completed);
        if shared.completed(code).1 {
            lemma_count_le_total(counts, code);
            lemma_recorded_total(counts, code);
            assert(system.admitted() =~= system.completed);
            assert(after.admitted() =~= system.completed.push(code));
        } else {
            assert(after.admitted() =~= system.admitted());
        }
    }
}

/// Whatever happens, the state stays well-formed.
pub proof fn lemma_step_wf(system: System, event: Event)
    requires
        system.wf(),
    ensures
        system.step(event).wf(),
{
    if system.enabled(event) {
        match event {
            Event::Start { thread_count } => lemma_start_wf(system, thread_count),
            Event::Stop => lemma_stop_wf(system),
            Event::Frame { worker, machine_odd_frame } => lemma_frame_wf(
                system,
                worker,
                machine_odd_frame,
            ),
            _ => lemma_hook_wf(system, event),
        }
    }
}

/// Every state that a run reaches is well-formed.
pub proof fn lemma_run_wf(system: System, events: Seq<Event>)
    requires
        system.wf(),
    ensures
        system.run(events).wf(),
    decreases events.len(),
{
    if events.len() > 0 {
        lemma_run_wf(system, events.drop_last());
        lemma_step_wf(system.run(events.drop_last()), events.last());
    }
}

/// A run changes neither the inputs that the simulator was made with nor
/// its cap.
pub proof fn lemma_run_keeps_inputs(system: System, events: Seq<Event>)
    ensures
        system.run(events).simulator.game == system.simulator.game,
        system.run(events).simulator.rom == system.simulator.rom,
        system.run(events).simulator.base == system.simulator.base,
        system.run(events).cap() == system.cap(),
    decreases events.len(),
{
    if events.len() > 0 {
        lemma_run_keeps_inputs(system, events.drop_last());
    }
}

/// The budget law. In every state of a run under a cap the tally holds no
/// more trials than the cap. Once a completed trial has been refused, the
/// tally holds exactly as many trials as the cap, and keeps doing so.
pub proof fn lemma_budget_law(system: System, events: Seq<Event>, cap: u64)
    requires
        system.wf(),
        system.cap() == Some(cap),
    ensures
        total_of(system.run(events).simulator.aggregator.counts) <= cap,
        system.run(events).refusals > 0 ==> total_of(
            system.run(events).simulator.aggregator.counts,
        ) == cap,
{
    lemma_run_wf(system, events);
    lemma_run_keeps_inputs(system, events);
}

/// Aggregation is a function of the decisions alone. In every state of a
/// run the tally is the tally of the decisions that were admitted, which
/// are the first of the completed ones, up to the cap: it counts each code
/// as often as the code occurs among them.
pub proof fn lemma_tally_of_run(system: System, events: Seq<Event>)
    requires
        system.wf(),
        system.cap() is None ==> system.run(events).completed.len() <= u64::MAX,
    ensures
        system.run(events).simulator.aggregator.counts == tally_of(system.run(events).admitted()),
        system.run(events).admitted() == system.run(events).completed.take(
            admitted_len(system.cap(), system.run(events).completed.len()) as int,
        ),
        forall|code: u8| #[trigger]
            count_of(system.run(events).simulator.aggregator.counts, code) == occurrences(
                system.run(events).admitted(),
                code,
            ),
{
    lemma_run_wf(system, events);
    lemma_run_keeps_inputs(system, events);
    lemma_tally_of(system.run(events).admitted());
}

/// Stopping twice is stopping once, and after a stop no worker is alive.
pub proof fn lemma_stop_idempotent(system: System)
    ensures
        system.step(Event::Stop).step(Event::Stop) == system.step(Event::Stop),
        !system.step(Event::Stop).simulator.is_running(),
{
}

/// A stop leaves the tally as it was: a trial that was under way is
/// dropped whole.
pub proof fn lemma_stop_records_nothing(system: System)
    ensures
        system.step(Event::Stop).simulator.aggregator == system.simulator.aggregator,
        system.step(Event::Stop).completed == system.completed,
{
}

/// Warm start. When a worker has seen its machine consume randomness, its
/// next iteration leaves the shared snapshot warm; a worker that was still
/// searching publishes the snapshot that it took before that step. In a
/// run, a worker that has converged has a warm snapshot to start from.
pub proof fn lemma_warm_start(system: System, worker: int, machine_odd_frame: bool)
    requires
        system.wf(),
        system.enabled(Event::Frame { worker, machine_odd_frame }),
        system.workers[worker].status.rng_hit,
    ensures
        system.frame(worker, machine_odd_frame).simulator.cache.warm,
        !system.workers[worker].converged ==> system.frame(
            worker,
            machine_odd_frame,
        ).simulator.cache.snapshot == system.workers[worker].candidate,
        system.workers[worker].converged ==> system.frame(
            worker,
            machine_odd_frame,
        ).simulator.cache == system.simulator.cache,
{
}

} // verus!
