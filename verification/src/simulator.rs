//! The simulator: the immutable inputs of a run, the state that its workers
//! share, and the bookkeeping of the worker pool.
//!
//! Each method is one step on the shared state. A caller that runs its
//! workers on threads takes each step under a lock; a caller that scripts a
//! run takes them in sequence.

use vstd::prelude::*;
use vstd::slice::slice_to_vec;
use std::collections::HashMap;
use crate::cache::{CacheState, WarmStartCache};
use crate::error::SimulatorError;
use crate::profile::{game_of_title, Game};
use crate::tally::{Aggregator, AggregatorState};
use crate::trial::{FramePlan, SnapshotAction, Worker, WorkerState};

verus! {

/// The mathematical state of a simulator.
pub struct SimulatorState {
    /// The title that the image was recognized as.
    pub game: Game,
    /// The program image.
    pub rom: Seq<u8>,
    /// The snapshot that the run was made with.
    pub base: Seq<u8>,
    pub cache: CacheState,
    pub aggregator: AggregatorState,
    /// Whether a stop has been requested since the last start.
    pub stop: bool,
    /// The number of workers that are alive.
    pub running: usize,
}

impl SimulatorState {
    pub open spec fn wf(self) -> bool {
        self.aggregator.wf()
    }

    /// The state that construction leaves.
    pub open spec fn initial(game: Game, rom: Seq<u8>, base: Seq<u8>, cap: Option<u64>)
        -> SimulatorState {
        SimulatorState {
            game,
            rom,
            base,
            cache: CacheState { snapshot: base, warm: false },
            aggregator: AggregatorState::initial(cap),
            stop: false,
            running: 0,
        }
    }

    pub open spec fn is_running(self) -> bool {
        self.running > 0
    }

    /// The state after `thread_count` workers are started.
    pub open spec fn started(self, thread_count: usize) -> SimulatorState {
        SimulatorState { stop: false, running: thread_count, ..self }
    }

    /// The state after a stop: nothing changes where no worker is alive,
    /// else the signal is raised and every worker has gone.
    pub open spec fn stopped(self) -> SimulatorState {
        if self.is_running() {
            SimulatorState { stop: true, running: 0, ..self }
        } else {
            self
        }
    }

    /// The state after a worker publishes `snapshot`.
    pub open spec fn published(self, snapshot: Seq<u8>) -> SimulatorState {
        SimulatorState { cache: CacheState { snapshot, warm: true }, ..self }
    }

    /// The state after one iteration of a worker's trial loop that came
    /// out with `plan`.
    pub open spec fn after_frame(self, plan: FramePlan, candidate: Seq<u8>) -> SimulatorState {
        if plan.snapshot == SnapshotAction::Publish {
            self.published(candidate)
        } else {
            self
        }
    }

    /// The state after a worker completes a trial with `code`, and whether
    /// the trial was recorded. A worker whose trial is refused is done: the
    /// budget is used up.
    pub open spec fn completed(self, code: u8) -> (SimulatorState, bool) {
        let (aggregator, was_recorded) = self.aggregator.completed(code);
        (
            SimulatorState {
                aggregator,
                running: if was_recorded || self.running == 0 {
                    self.running
                } else {
                    (self.running - 1) as usize
                },
                ..self
            },
            was_recorded,
        )
    }
}

/// Stopping twice is stopping once, and after a stop no worker counts as
/// alive.
pub proof fn lemma_stopped_twice(simulator: SimulatorState)
    ensures
        simulator.stopped().stopped() == simulator.stopped(),
        !simulator.stopped().is_running(),
{
}

/// A simulation run.
pub struct Simulator {
    game: Game,
    rom: Vec<u8>,
    base: Vec<u8>,
    cache: WarmStartCache,
    aggregator: Aggregator,
    stop: bool,
    running: usize,
}

impl View for Simulator {
    type V = SimulatorState;

    closed spec fn view(&self) -> SimulatorState {
        SimulatorState {
            game: self.game,
            rom: self.rom@,
            base: self.base@,
            cache: self.cache@,
            aggregator: self.aggregator@,
            stop: self.stop,
            running: self.running,
        }
    }
}

/// What construction returns. `title` is what the machine reported after it
/// was given the image and the snapshot: `None` where it refused the
/// snapshot, else the identity that it read from the image.
pub open spec fn construction(
    rom: Seq<u8>,
    save_state: Seq<u8>,
    trials: Option<u64>,
    title: Option<Seq<char>>,
    result: Result<Simulator, SimulatorError>,
) -> bool {
    match title {
        None => result matches Err(e) && e is SaveStateError,
        Some(title) => match game_of_title(title) {
            Some(game) => result matches Ok(simulator) && simulator@ == SimulatorState::initial(
                game,
                rom,
                save_state,
                trials,
            ),
            None => result matches Err(e) && e.is_unknown_game(title),
        },
    }
}

impl Simulator {
    /// Makes a simulator from an image and a snapshot that the caller has
    /// put to the machine. `title` is `None` where the machine refused the
    /// snapshot for this image, else the identity that it read from the
    /// image. `trials` caps the number of recorded trials.
    pub fn new_from_vec(
        rom: Vec<u8>,
        save_state: Vec<u8>,
        trials: Option<u64>,
        title: Option<&str>,
    ) -> (result: Result<Simulator, SimulatorError>)
        ensures
            construction(
                rom@,
                save_state@,
                trials,
                match title {
                    Some(title) => Some(title@),
                    None => None,
                },
                result,
            ),
            result matches Ok(simulator) ==> simulator@.wf(),
    {
        let Some(title) = title else {
            return Err(SimulatorError::SaveStateError);
        };
        let Some(game) = Game::from_title(title) else {
            return Err(SimulatorError::unknown_game(title));
        };
        let cache = WarmStartCache::new(slice_to_vec(save_state.as_slice()));
        Ok(
            Simulator {
                game,
                rom,
                base: save_state,
                cache,
                aggregator: Aggregator::new(trials),
                stop: false,
                running: 0,
            },
        )
    }

    /// As [`Simulator::new_from_vec`], from borrowed bytes.
    pub fn new_from_slices(
        rom: &[u8],
        save_state: &[u8],
        trials: Option<u64>,
        title: Option<&str>,
    ) -> (result: Result<Simulator, SimulatorError>)
        ensures
            construction(
                rom@,
                save_state@,
                trials,
                match title {
                    Some(title) => Some(title@),
                    None => None,
                },
                result,
            ),
            result matches Ok(simulator) ==> simulator@.wf(),
    {
        Simulator::new_from_vec(slice_to_vec(rom), slice_to_vec(save_state), trials, title)
    }

    /// Whether at least one worker is alive.
    pub fn is_running(&self) -> (r: bool)
        ensures
            r == self@.is_running(),
    {
        self.running > 0
    }

    /// A copy of the counts recorded so far.
    pub fn results(&self) -> (counts: HashMap<u8, u64>)
        ensures
            counts@ == self@.aggregator.counts,
            self@.wf(),
    {
        self.aggregator.results()
    }

    /// Starts a run with `thread_count` workers: clears the stop signal and
    /// hands out the workers, each of which starts from the shared snapshot.
    /// The caller runs each worker's trial loop.
    pub fn start(&mut self, thread_count: usize) -> (workers: Vec<Worker>)
        requires
            !old(self)@.is_running(),
        ensures
            final(self)@ == old(self)@.started(thread_count),
            workers@.len() == thread_count,
            forall|i: int|
                0 <= i < thread_count ==> (#[trigger] workers@[i])@ == WorkerState::fresh(
                    old(self)@.game,
                    old(self)@.cache.snapshot,
                ),
    {
        self.stop = false;
        let mut workers: Vec<Worker> = Vec::new();
        while workers.len() < thread_count
            invariant
                workers@.len() <= thread_count,
                forall|i: int|
                    0 <= i < workers@.len() ==> (#[trigger] workers@[i])@ == WorkerState::fresh(
                        self.game,
                        self.cache@.snapshot,
                    ),
            decreases thread_count - workers@.len(),
        {
            workers.push(Worker::new(self.game, self.cache.get()));
        }
        self.running = thread_count;
        workers
    }

    /// Stops the run. Where no worker is alive this does nothing. Else it
    /// raises the stop signal, on which every worker drops its trial, and
    /// counts every worker as gone.
    pub fn stop(&mut self)
        ensures
            final(self)@ == old(self)@.stopped(),
            !final(self)@.is_running(),
    {
        if self.running > 0 {
            self.stop = true;
            self.running = 0;
        }
    }

    /// Whether a stop has been requested since the last start.
    pub fn stop_requested(&self) -> (r: bool)
        ensures
            r == self@.stop,
    {
        self.stop
    }

    /// The title that the image was recognized as.
    pub fn game(&self) -> (game: Game)
        ensures
            game == self@.game,
    {
        self.game
    }

    /// The program image.
    pub fn rom(&self) -> (rom: &Vec<u8>)
        ensures
            rom@ == self@.rom,
    {
        &self.rom
    }

    /// The snapshot that the run was made with.
    pub fn base_snapshot(&self) -> (base: &Vec<u8>)
        ensures
            base@ == self@.base,
    {
        &self.base
    }

    /// Whether a worker has published a warm-start snapshot.
    pub fn is_warm(&self) -> (r: bool)
        ensures
            r == self@.cache.warm,
    {
        self.cache.is_warm()
    }

    /// Starts a worker's next trial and returns the snapshot to restore the
    /// machine from: the warm-start snapshot if one was published, else the
    /// base snapshot.
    pub fn restore(&self, worker: &mut Worker) -> (snapshot: Vec<u8>)
        ensures
            final(worker)@ == old(worker)@.restarted(),
            snapshot@ == self@.cache.snapshot,
    {
        worker.begin_trial();
        self.cache.get()
    }

    /// Plans one iteration of a worker's trial loop against the stop
    /// signal, and publishes the worker's candidate where the plan says so.
    /// The rest of the plan is the caller's to carry out.
    pub fn frame(&mut self, worker: &mut Worker, machine_odd_frame: bool) -> (plan: FramePlan)
        ensures
            (final(worker)@, plan) == old(worker)@.step(old(self)@.stop, machine_odd_frame),
            final(self)@ == old(self)@.after_frame(plan, old(worker)@.candidate),
    {
        let plan = worker.plan_frame(self.stop, machine_odd_frame);
        match plan.snapshot {
            SnapshotAction::Publish => {
                self.cache.publish(slice_to_vec(worker.candidate().as_slice()));
            },
            _ => {},
        }
        plan
    }

    /// Tests whether a trial that ended in `code` can be completed. Under a
    /// cap it always can; without one, the count of the code must not have
    /// reached the end of its range.
    pub fn has_room(&self, code: u8) -> (r: bool)
        ensures
            r == self@.aggregator.has_room(code),
    {
        self.aggregator.has_room(code)
    }

    /// Completes a trial that ended in `code`. It is recorded if the budget
    /// admits it. If not, the worker that ran it is done and is counted as
    /// gone.
    pub fn complete_trial(&mut self, code: u8) -> (was_recorded: bool)
        requires
            old(self)@.aggregator.has_room(code),
        ensures
            (final(self)@, was_recorded) == old(self)@.completed(code),
            final(self)@.wf(),
    {
        let was_recorded = self.aggregator.complete(code);
        if !was_recorded && self.running > 0 {
            self.running = self.running - 1;
        }
        was_recorded
    }
}

} // verus!
