//! The orchestrator: which tasks a run consists of, and the life of the
//! run from start to the join of the last task.

use crate::config::Config;
use crate::shutdown::{signal_next, ShutdownSignal};
use vstd::prelude::*;

verus! {

/// One task of a run.
#[derive(Clone, Copy, Debug, PartialEq, Eq, Structural)]
pub enum Task {
    /// The producer with this number.
    Producer(usize),
    /// The consumer with this number.
    Consumer(usize),
    /// The task that raises the target rate.
    RateController,
    /// The error circuit breaker.
    CircuitBreaker,
    /// The periodic reporter.
    Reporter,
}

/// The background tasks of a run: the breaker and the reporter, and the
/// rate controller where the rate is raised on a timer.
pub open spec fn background_tasks(cfg: Config) -> Seq<Task> {
    if cfg.auto_increase {
        seq![Task::RateController, Task::CircuitBreaker, Task::Reporter]
    } else {
        seq![Task::CircuitBreaker, Task::Reporter]
    }
}

/// The tasks of a run in the order in which they are spawned: the
/// producers by number, the consumers by number, the background tasks.
pub open spec fn planned_tasks(cfg: Config) -> Seq<Task> {
    Seq::new(cfg.producer_num_threads as nat, |i: int| Task::Producer(i as usize)) + Seq::new(
        cfg.consumer_num_threads as nat,
        |i: int| Task::Consumer(i as usize),
    ) + background_tasks(cfg)
}

/// The number of tasks of a run.
pub open spec fn planned_count(cfg: Config) -> nat {
    cfg.producer_num_threads as nat + cfg.consumer_num_threads as nat + background_tasks(cfg).len()
}

/// The tasks to spawn for `cfg`, in order. `None` when there would be more
/// of them than a `usize` can count.
pub fn task_plan(cfg: &Config) -> (plan: Option<Vec<Task>>)
    ensures
        planned_count(*cfg) > usize::MAX <==> plan.is_none(),
        plan.is_some() ==> plan.unwrap()@ == planned_tasks(*cfg),
{
    let background: usize = if cfg.auto_increase {
        3
    } else {
        2
    };
    let workers = match cfg.producer_num_threads.checked_add(cfg.consumer_num_threads) {
        Some(workers) => workers,
        None => {
            return None;
        },
    };
    if workers > usize::MAX - background {
        return None;
    }
    let mut plan: Vec<Task> = Vec::new();
    let mut i: usize = 0;
    while i < cfg.producer_num_threads
        invariant
            i <= cfg.producer_num_threads,
            plan@ == Seq::new(i as nat, |k: int| Task::Producer(k as usize)),
        decreases cfg.producer_num_threads - i,
    {
        plan.push(Task::Producer(i));
        i += 1;
    }
    let ghost producers = plan@;
    let mut j: usize = 0;
    while j < cfg.consumer_num_threads
        invariant
            j <= cfg.consumer_num_threads,
            plan@ == producers + Seq::new(j as nat, |k: int| Task::Consumer(k as usize)),
        decreases cfg.consumer_num_threads - j,
    {
        plan.push(Task::Consumer(j));
        j += 1;
    }
    let ghost workers_planned = plan@;
    if cfg.auto_increase {
        plan.push(Task::RateController);
    }
    plan.push(Task::CircuitBreaker);
    plan.push(Task::Reporter);
    assert(plan@ == workers_planned + background_tasks(*cfg));
    Some(plan)
}

/// A run has as many tasks as it has producers and consumers, and two or
/// three more in the background.
pub proof fn lemma_plan_length(cfg: Config)
    ensures
        planned_tasks(cfg).len() == planned_count(cfg),
        planned_count(cfg) == cfg.producer_num_threads + cfg.consumer_num_threads + (
        if cfg.auto_increase {
            3nat
        } else {
            2nat
        }),
{
}

/// The phases of a run.
#[derive(Clone, Copy, Debug, PartialEq, Eq, Structural)]
pub enum RunPhase {
    /// Settings are being loaded and shared state is being built.
    Initializing,
    /// Tasks are being spawned and are at work.
    Running,
    /// Shutdown was signalled; the tasks are being joined.
    Draining,
    /// Every task has been joined, or the run never started.
    Stopped,
}

/// What the orchestrator is told.
#[derive(Clone, Copy, Debug, PartialEq, Eq, Structural)]
pub enum RunEvent {
    /// Settings are loaded and shared state is built.
    Configured,
    /// Loading the settings failed.
    ConfigFailed,
    /// The orchestrator is about to spawn one more task.
    SpawnRequested,
    /// The operator interrupted the run, or the breaker tripped.
    ShutdownRequested,
    /// One spawned task has returned and was joined.
    TaskJoined,
}

/// What the orchestrator does next.
#[derive(Clone, Copy, Debug, PartialEq, Eq, Structural)]
pub enum RunAction {
    /// Go on: spawn tasks, wait for an interrupt or a trip.
    Proceed,
    /// Spawn the task.
    Spawn,
    /// Do not spawn the task: the run is not in a phase that takes tasks.
    Refuse,
    /// Shutdown has been signalled: join every spawned task.
    Drain,
    /// Go on joining.
    KeepJoining,
    /// Every task is joined: report the final counters and exit cleanly.
    Finish,
    /// Exit with a failure: the run never started.
    Abort,
    /// Nothing: the event has no meaning in this phase.
    Ignore,
}

/// A run as plain values.
pub struct RunView {
    pub phase: RunPhase,
    /// Tasks spawned so far.
    pub spawned: nat,
    /// Tasks joined so far.
    pub joined: nat,
}

/// A run that has not begun.
pub open spec fn fresh_run() -> RunView {
    RunView { phase: RunPhase::Initializing, spawned: 0, joined: 0 }
}

/// What always holds of a run: no task is joined that was not spawned;
/// before the run is running there are no tasks; no task is joined before
/// draining begins; a draining run still has a task to join; and a stopped
/// run has joined every task it spawned.
pub open spec fn run_inv(run: RunView) -> bool {
    &&& run.joined <= run.spawned
    &&& run.spawned <= usize::MAX
    &&& run.phase == RunPhase::Initializing ==> run.spawned == 0
    &&& run.phase == RunPhase::Running ==> run.joined == 0
    &&& run.phase == RunPhase::Draining ==> run.joined < run.spawned
    &&& run.phase == RunPhase::Stopped ==> run.joined == run.spawned
}

/// The run after `event`, and what the orchestrator does next.
pub open spec fn run_next(run: RunView, event: RunEvent) -> (RunView, RunAction) {
    match (run.phase, event) {
        (RunPhase::Initializing, RunEvent::Configured) => (
            RunView { phase: RunPhase::Running, ..run },
            RunAction::Proceed,
        ),
        (RunPhase::Initializing, RunEvent::ConfigFailed) => (
            RunView { phase: RunPhase::Stopped, ..run },
            RunAction::Abort,
        ),
        (RunPhase::Initializing, RunEvent::ShutdownRequested) => (
            RunView { phase: RunPhase::Stopped, ..run },
            RunAction::Finish,
        ),
        (RunPhase::Running, RunEvent::SpawnRequested) => if run.spawned < usize::MAX {
            (RunView { spawned: run.spawned + 1, ..run }, RunAction::Spawn)
        } else {
            (run, RunAction::Refuse)
        },
        (RunPhase::Running, RunEvent::ShutdownRequested) => if run.joined < run.spawned {
            (RunView { phase: RunPhase::Draining, ..run }, RunAction::Drain)
        } else {
            (RunView { phase: RunPhase::Stopped, ..run }, RunAction::Finish)
        },
        (RunPhase::Draining, RunEvent::TaskJoined) => if run.joined + 1 < run.spawned {
            (RunView { joined: run.joined + 1, ..run }, RunAction::KeepJoining)
        } else {
            (RunView { phase: RunPhase::Stopped, joined: run.joined + 1, ..run }, RunAction::Finish)
        },
        (RunPhase::Draining, RunEvent::ShutdownRequested) => (run, RunAction::KeepJoining),
        (_, RunEvent::SpawnRequested) => (run, RunAction::Refuse),
        _ => (run, RunAction::Ignore),
    }
}

/// Whether the shutdown signal is set after `event`: it is set by every
/// request for shutdown and by nothing else.
pub open spec fn signal_after(set: bool, event: RunEvent) -> bool {
    set || event == RunEvent::ShutdownRequested
}

/// The orchestrator of one run.
#[derive(Debug)]
pub struct Orchestrator {
    phase: RunPhase,
    spawned: usize,
    joined: usize,
}

impl View for Orchestrator {
    type V = RunView;

    closed spec fn view(&self) -> RunView {
        RunView { phase: self.phase, spawned: self.spawned as nat, joined: self.joined as nat }
    }
}

impl Orchestrator {
    #[verifier::type_invariant]
    spec fn well_formed(self) -> bool {
        run_inv(self@)
    }

    /// The orchestrator of a run that has not begun.
    pub fn new() -> (orchestrator: Self)
        ensures
            orchestrator@ == fresh_run(),
    {
        Orchestrator { phase: RunPhase::Initializing, spawned: 0, joined: 0 }
    }

    /// Reads the phase.
    pub fn phase(&self) -> (phase: RunPhase)
        ensures
            phase == self@.phase,
    {
        self.phase
    }

    /// The number of tasks spawned so far.
    pub fn spawned(&self) -> (n: usize)
        ensures
            n == self@.spawned,
    {
        self.spawned
    }

    /// The number of tasks joined so far. It never exceeds the number of
    /// tasks spawned, and equals it once the run is stopped.
    pub fn joined(&self) -> (n: usize)
        ensures
            n == self@.joined,
            run_inv(self@),
    {
        proof {
            use_type_invariant(self);
        }
        self.joined
    }

    /// One turn of the orchestrator. A request for shutdown gives the
    /// shutdown signal, in every phase; no other event touches it.
    pub fn step(&mut self, event: RunEvent, signal: &mut ShutdownSignal) -> (action: RunAction)
        ensures
            final(self)@ == run_next(old(self)@, event).0,
            action == run_next(old(self)@, event).1,
            final(signal).is_set() == signal_after(old(signal).is_set(), event),
            run_inv(final(self)@),
    {
        proof {
            use_type_invariant(&*self);
        }
        if event == RunEvent::ShutdownRequested {
            signal.signal();
        }
        match self.phase {
            RunPhase::Initializing => match event {
                RunEvent::Configured => {
                    self.phase = RunPhase::Running;
                    RunAction::Proceed
                },
                RunEvent::ConfigFailed => {
                    self.phase = RunPhase::Stopped;
                    RunAction::Abort
                },
                RunEvent::ShutdownRequested => {
                    self.phase = RunPhase::Stopped;
                    RunAction::Finish
                },
                RunEvent::SpawnRequested => RunAction::Refuse,
                RunEvent::TaskJoined => RunAction::Ignore,
            },
            RunPhase::Running => match event {
                RunEvent::SpawnRequested => {
                    if self.spawned < usize::MAX {
                        self.spawned = self.spawned + 1;
                        RunAction::Spawn
                    } else {
                        RunAction::Refuse
                    }
                },
                RunEvent::ShutdownRequested => {
                    if self.joined < self.spawned {
                        self.phase = RunPhase::Draining;
                        RunAction::Drain
                    } else {
                        self.phase = RunPhase::Stopped;
                        RunAction::Finish
                    }
                },
                _ => RunAction::Ignore,
            },
            RunPhase::Draining => match event {
                RunEvent::TaskJoined => {
                    if self.joined + 1 < self.spawned {
                        self.joined = self.joined + 1;
                        RunAction::KeepJoining
                    } else {
                        *self = Orchestrator {
                            phase: RunPhase::Stopped,
                            spawned: self.spawned,
                            joined: self.joined + 1,
                        };
                        RunAction::Finish
                    }
                },
                RunEvent::ShutdownRequested => RunAction::KeepJoining,
                RunEvent::SpawnRequested => RunAction::Refuse,
                _ => RunAction::Ignore,
            },
            RunPhase::Stopped => match event {
                RunEvent::SpawnRequested => RunAction::Refuse,
                _ => RunAction::Ignore,
            },
        }
    }
}

/// The run after a sequence of events, from a run that has not begun.
pub open spec fn run_after(events: Seq<RunEvent>) -> RunView
    decreases events.len(),
{
    if events.len() == 0 {
        fresh_run()
    } else {
        run_next(run_after(events.drop_last()), events.last()).0
    }
}

/// How many tasks the orchestrator was told to spawn in the course of
/// `events`.
pub open spec fn spawns_granted(events: Seq<RunEvent>) -> nat
    decreases events.len(),
{
    if events.len() == 0 {
        0
    } else if run_next(run_after(events.drop_last()), events.last()).1 == RunAction::Spawn {
        spawns_granted(events.drop_last()) + 1
    } else {
        spawns_granted(events.drop_last())
    }
}

/// How many joins the orchestrator took in the course of `events`: the
/// joins that came while it was draining.
pub open spec fn joins_taken(events: Seq<RunEvent>) -> nat
    decreases events.len(),
{
    if events.len() == 0 {
        0
    } else if run_after(events.drop_last()).phase == RunPhase::Draining && events.last()
        == RunEvent::TaskJoined {
        joins_taken(events.drop_last()) + 1
    } else {
        joins_taken(events.drop_last())
    }
}

/// Every event keeps what always holds of a run.
pub proof fn lemma_run_inv_kept(run: RunView, event: RunEvent)
    requires
        run_inv(run),
    ensures
        run_inv(run_next(run, event).0),
{
}

/// What always holds of a run holds after every sequence of events, and
/// the run has counted every spawn it granted and every join it took.
pub proof fn lemma_run_counts(events: Seq<RunEvent>)
    ensures
        run_inv(run_after(events)),
        run_after(events).spawned == spawns_granted(events),
        run_after(events).joined == joins_taken(events),
    decreases events.len(),
{
    if events.len() > 0 {
        lemma_run_counts(events.drop_last());
        lemma_run_inv_kept(run_after(events.drop_last()), events.last());
    }
}

/// A run that is stopped has joined exactly the tasks it spawned: none is
/// left running and none was joined twice. With the tasks of a plan
/// spawned, that is one join for each producer, each consumer and each
/// background task.
pub proof fn lemma_stopped_run_joined_all(events: Seq<RunEvent>)
    requires
        run_after(events).phase == RunPhase::Stopped,
    ensures
        joins_taken(events) == spawns_granted(events),
{
    lemma_run_counts(events);
}

/// Once shutdown has begun no task is spawned any more: a run that is
/// draining or stopped refuses every spawn and never runs again.
pub proof fn lemma_no_spawn_after_shutdown(run: RunView, event: RunEvent)
    requires
        run.phase == RunPhase::Draining || run.phase == RunPhase::Stopped,
    ensures
        run_next(run, RunEvent::SpawnRequested) == (run, RunAction::Refuse),
        run_next(run, event).0.phase == RunPhase::Draining || run_next(run, event).0.phase
            == RunPhase::Stopped,
        run_next(run, event).0.spawned == run.spawned,
{
}

/// A second request for shutdown changes nothing: the run is as the first
/// request left it, the signal stays set, and joining is not begun anew.
pub proof fn lemma_shutdown_request_idempotent(run: RunView, set: bool)
    ensures
        run_next(run_next(run, RunEvent::ShutdownRequested).0, RunEvent::ShutdownRequested).0
            == run_next(run, RunEvent::ShutdownRequested).0,
        run_next(run_next(run, RunEvent::ShutdownRequested).0, RunEvent::ShutdownRequested).1
            != RunAction::Drain,
        signal_after(signal_after(set, RunEvent::ShutdownRequested), RunEvent::ShutdownRequested)
            == signal_after(set, RunEvent::ShutdownRequested),
        signal_after(set, RunEvent::ShutdownRequested),
{
}

/// It does not matter which comes first, the operator's interrupt, which
/// reaches the signal through the orchestrator, or a trip of the breaker,
/// which gives the signal itself: after both the signal is set, and the
/// run is as the first request for shutdown left it.
pub proof fn lemma_shutdown_order_irrelevant(run: RunView, set: bool)
    ensures
        signal_after(signal_next(set).0, RunEvent::ShutdownRequested) == signal_next(
            signal_after(set, RunEvent::ShutdownRequested),
        ).0,
        signal_after(signal_next(set).0, RunEvent::ShutdownRequested),
        !signal_next(signal_after(set, RunEvent::ShutdownRequested)).1,
        run_next(run_next(run, RunEvent::ShutdownRequested).0, RunEvent::ShutdownRequested).0
            == run_next(run, RunEvent::ShutdownRequested).0,
{
}

/// The events of a run that is configured and spawns `tasks` tasks.
pub open spec fn spawning_run(tasks: nat) -> Seq<RunEvent> {
    seq![RunEvent::Configured] + Seq::new(tasks, |i: int| RunEvent::SpawnRequested)
}

/// The events of a run that is configured, spawns `tasks` tasks, is told
/// to shut down and has joined `joins` tasks since.
pub open spec fn draining_run(tasks: nat, joins: nat) -> Seq<RunEvent> {
    spawning_run(tasks) + seq![RunEvent::ShutdownRequested] + Seq::new(
        joins,
        |i: int| RunEvent::TaskJoined,
    )
}

/// A configured run grants every spawn it is asked for, as far as a
/// `usize` counts, and stays running.
pub proof fn lemma_spawning_run(tasks: nat)
    requires
        tasks <= usize::MAX,
    ensures
        run_after(spawning_run(tasks)) == (RunView {
            phase: RunPhase::Running,
            spawned: tasks,
            joined: 0,
        }),
    decreases tasks,
{
    let events = spawning_run(tasks);
    if tasks == 0 {
        assert(events.drop_last() =~= Seq::<RunEvent>::empty());
        assert(run_after(events.drop_last()) == fresh_run());
    } else {
        lemma_spawning_run((tasks - 1) as nat);
        assert(events.drop_last() =~= spawning_run((tasks - 1) as nat));
        assert(events.last() == RunEvent::SpawnRequested);
    }
}

/// A run with tasks stops when the last of them is joined and not before:
/// after shutdown is requested it is draining until it has taken as many
/// joins as it granted spawns, and stopped from then on. A run of a plan
/// therefore takes one join for each producer, each consumer and each
/// background task.
pub proof fn lemma_run_stops_after_all_joins(tasks: nat, joins: nat)
    requires
        1 <= tasks <= usize::MAX,
        joins <= tasks,
    ensures
        run_after(draining_run(tasks, joins)) == (RunView {
            phase: if joins == tasks {
                RunPhase::Stopped
            } else {
                RunPhase::Draining
            },
            spawned: tasks,
            joined: joins,
        }),
    decreases joins,
{
    let events = draining_run(tasks, joins);
    if joins == 0 {
        lemma_spawning_run(tasks);
        assert(events.drop_last() =~= spawning_run(tasks));
        assert(events.last() == RunEvent::ShutdownRequested);
    } else {
        lemma_run_stops_after_all_joins(tasks, (joins - 1) as nat);
        assert(events.drop_last() =~= draining_run(tasks, (joins - 1) as nat));
        assert(events.last() == RunEvent::TaskJoined);
    }
}

} // verus!
