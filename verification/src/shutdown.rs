//! The shutdown coordinator: waits for the termination signal, then drives
//! the one ordered sequence in the system.
//!
//! On the first signal the run leaves `Running` and drains in strict order:
//! cancel the supervisor, run the shutdown command and wait for it, await the
//! backend's final exit, cancel every listener.  A later signal has no
//! further effect.  A failure in a drain step is recorded — teardown goes on
//! regardless — and decides the process's final result.

use vstd::prelude::*;

verus! {

/// The four steps of the drain, in the order they run.
#[derive(Clone, Copy, PartialEq, Eq, Structural)]
pub enum DrainStep {
    /// Stop relaunching; release the live child's input stream.
    CancelSupervisor,
    /// Run the shutdown command against the backend and wait for it.
    RunShutdownCommand,
    /// Await the final exit of the backend process itself.
    AwaitBackendExit,
    /// Cancel every listener acceptor.
    CancelListeners,
}

impl DrainStep {
    /// The position of this step in the drain order.
    pub open spec fn rank(self) -> int {
        match self {
            DrainStep::CancelSupervisor => 0,
            DrainStep::RunShutdownCommand => 1,
            DrainStep::AwaitBackendExit => 2,
            DrainStep::CancelListeners => 3,
        }
    }

    /// The step after this one, if any.
    pub open spec fn spec_next(self) -> Option<DrainStep> {
        match self {
            DrainStep::CancelSupervisor => Some(DrainStep::RunShutdownCommand),
            DrainStep::RunShutdownCommand => Some(DrainStep::AwaitBackendExit),
            DrainStep::AwaitBackendExit => Some(DrainStep::CancelListeners),
            DrainStep::CancelListeners => None,
        }
    }
}

/// Where the coordinator stands.  The moment the signal is received the
/// first drain step is already pending, so `Draining` with the first step
/// doubles as the signal-received state.
#[derive(Clone, Copy, PartialEq, Eq, Structural)]
pub enum CoordinatorPhase {
    /// Supervisor and listeners run; the signal has not arrived.
    Running,
    /// The signal arrived; the given step is the one to perform next.
    Draining { step: DrainStep },
    /// The drain ran to its end.
    Terminated,
}

/// The coordinator's state: its phase, and whether any drain step failed.
#[derive(Clone, Copy, PartialEq, Eq, Structural)]
pub struct Coordinator {
    pub phase: CoordinatorPhase,
    /// Whether some drain step reported a failure; such a failure never stops
    /// the remaining steps, it only decides the final result.
    pub step_failed: bool,
}

/// A fresh coordinator: running, no failure recorded.
pub open spec fn initial_coordinator() -> Coordinator {
    Coordinator { phase: CoordinatorPhase::Running, step_failed: false }
}

/// The state and emitted step after a termination signal: the first signal
/// starts the drain at its first step, any later one changes nothing.
pub open spec fn spec_signal(c: Coordinator) -> (Coordinator, Option<DrainStep>) {
    if c.phase is Running {
        (
            Coordinator { phase: CoordinatorPhase::Draining { step: DrainStep::CancelSupervisor }, ..c },
            Some(DrainStep::CancelSupervisor),
        )
    } else {
        (c, None)
    }
}

/// The state and next step after the current drain step completed with
/// outcome `ok`.
pub open spec fn spec_step_done(c: Coordinator, step: DrainStep, ok: bool) -> (
    Coordinator,
    Option<DrainStep>,
) {
    let failed = c.step_failed || !ok;
    match step.spec_next() {
        Some(next) => (
            Coordinator { phase: CoordinatorPhase::Draining { step: next }, step_failed: failed },
            Some(next),
        ),
        None => (Coordinator { phase: CoordinatorPhase::Terminated, step_failed: failed }, None),
    }
}

impl Coordinator {
    /// A fresh coordinator for a starting run.
    pub fn new() -> (c: Coordinator)
        ensures
            c == initial_coordinator(),
    {
        Coordinator { phase: CoordinatorPhase::Running, step_failed: false }
    }

    /// Takes one termination signal.  Exactly the first signal starts the
    /// drain and names its first step; every later signal returns `None` and
    /// leaves the state as it is, so repeated signals run the drain once.
    pub fn on_signal(&mut self) -> (a: Option<DrainStep>)
        ensures
            (*final(self), a) == spec_signal(*old(self)),
            old(self).phase is Running ==> a == Some(DrainStep::CancelSupervisor)
                && final(self).phase == (CoordinatorPhase::Draining {
                step: DrainStep::CancelSupervisor,
            }),
            !(old(self).phase is Running) ==> a is None && *final(self) == *old(self),
    {
        match self.phase {
            CoordinatorPhase::Running => {
                self.phase = CoordinatorPhase::Draining { step: DrainStep::CancelSupervisor };
                Some(DrainStep::CancelSupervisor)
            },
            _ => None,
        }
    }

    /// Records that the current drain step completed with outcome `ok` and
    /// names the next step, or `None` once the drain has run to its end.
    /// Later steps still run after a failure; the failure is only recorded.
    pub fn on_step_done(&mut self, ok: bool) -> (a: Option<DrainStep>)
        requires
            old(self).phase is Draining,
        ensures
            (*final(self), a) == spec_step_done(
                *old(self),
                old(self).phase->Draining_step,
                ok,
            ),
            final(self).step_failed == (old(self).step_failed || !ok),
            old(self).phase->Draining_step == DrainStep::CancelListeners <==> final(self).phase
                is Terminated,
            a is Some ==> a->Some_0.rank() == old(self).phase->Draining_step.rank() + 1,
    {
        let step = match self.phase {
            CoordinatorPhase::Draining { step } => step,
            _ => DrainStep::CancelSupervisor,
        };
        if !ok {
            self.step_failed = true;
        }
        match step {
            DrainStep::CancelSupervisor => {
                self.phase = CoordinatorPhase::Draining { step: DrainStep::RunShutdownCommand };
                Some(DrainStep::RunShutdownCommand)
            },
            DrainStep::RunShutdownCommand => {
                self.phase = CoordinatorPhase::Draining { step: DrainStep::AwaitBackendExit };
                Some(DrainStep::AwaitBackendExit)
            },
            DrainStep::AwaitBackendExit => {
                self.phase = CoordinatorPhase::Draining { step: DrainStep::CancelListeners };
                Some(DrainStep::CancelListeners)
            },
            DrainStep::CancelListeners => {
                self.phase = CoordinatorPhase::Terminated;
                None
            },
        }
    }

    /// Whether the finished run counts as clean: it does exactly when no
    /// drain step failed.
    pub fn succeeded(&self) -> (b: bool)
        requires
            self.phase is Terminated,
        ensures
            b <==> !self.step_failed,
    {
        !self.step_failed
    }
}

/// Shutdown idempotence: only the first termination signal does anything.  A
/// second signal — however soon it follows — neither moves the coordinator
/// nor emits a drain step, so the drain sequence runs exactly once.
pub proof fn lemma_signal_idempotent(c: Coordinator)
    ensures
        spec_signal(spec_signal(c).0).0 == spec_signal(c).0,
        spec_signal(spec_signal(c).0).1 is None,
        c.phase is Running ==> spec_signal(c).1 == Some(DrainStep::CancelSupervisor),
        !(c.phase is Running) ==> spec_signal(c) == (c, Option::<DrainStep>::None),
{
}

/// One event the coordinator takes.
#[derive(Clone, Copy, PartialEq, Eq, Structural)]
pub enum CoordinatorEvent {
    /// A termination signal arrived.
    Signal,
    /// The pending drain step completed with the given outcome.
    StepDone { ok: bool },
}

/// Whether the event can be reported in state `c`: the contract of the step
/// that records it.
pub open spec fn coordinator_event_allowed(c: Coordinator, e: CoordinatorEvent) -> bool {
    match e {
        CoordinatorEvent::Signal => true,
        CoordinatorEvent::StepDone { .. } => c.phase is Draining,
    }
}

/// The state after event `e`, and the drain step emitted by it, if any.
pub open spec fn coordinator_apply(c: Coordinator, e: CoordinatorEvent) -> (
    Coordinator,
    Option<DrainStep>,
) {
    match e {
        CoordinatorEvent::Signal => spec_signal(c),
        CoordinatorEvent::StepDone { ok } => match c.phase {
            CoordinatorPhase::Draining { step } => spec_step_done(c, step, ok),
            _ => (c, None),
        },
    }
}

/// The state after the whole event sequence, and every drain step emitted on
/// the way, in order.  The signal itself accounts for the first step.
pub open spec fn coordinator_run(c: Coordinator, evs: Seq<CoordinatorEvent>) -> (
    Coordinator,
    Seq<DrainStep>,
)
    decreases evs.len(),
{
    if evs.len() == 0 {
        (c, Seq::empty())
    } else {
        let first = coordinator_apply(c, evs.first());
        let rest = coordinator_run(first.0, evs.drop_first());
        (
            rest.0,
            match first.1 {
                Some(step) => seq![step] + rest.1,
                None => rest.1,
            },
        )
    }
}

/// Whether every event of the sequence is allowed in the state it meets.
pub open spec fn coordinator_valid_trace(c: Coordinator, evs: Seq<CoordinatorEvent>) -> bool
    decreases evs.len(),
{
    evs.len() == 0 || (coordinator_event_allowed(c, evs.first()) && coordinator_valid_trace(
        coordinator_apply(c, evs.first()).0,
        evs.drop_first(),
    ))
}

/// The four drain steps in the one order they may run.
pub open spec fn drain_order() -> Seq<DrainStep> {
    seq![
        DrainStep::CancelSupervisor,
        DrainStep::RunShutdownCommand,
        DrainStep::AwaitBackendExit,
        DrainStep::CancelListeners,
    ]
}

/// How many drain steps have been handed out to reach state `c`.
pub open spec fn steps_emitted(c: Coordinator) -> int {
    match c.phase {
        CoordinatorPhase::Running => 0,
        CoordinatorPhase::Draining { step } => step.rank() + 1,
        CoordinatorPhase::Terminated => 4,
    }
}

/// Drain order: whatever mixture of signals and step completions a run
/// takes, the drain steps it hands out are exactly a contiguous piece of the
/// fixed order — later steps never before earlier ones, none twice.
pub proof fn lemma_drain_order(c: Coordinator, evs: Seq<CoordinatorEvent>)
    requires
        coordinator_valid_trace(c, evs),
    ensures
        steps_emitted(c) <= steps_emitted(coordinator_run(c, evs).0) <= 4,
        coordinator_run(c, evs).1 == drain_order().subrange(
            steps_emitted(c),
            steps_emitted(coordinator_run(c, evs).0),
        ),
    decreases evs.len(),
{
    if evs.len() == 0 {
        assert(drain_order().subrange(steps_emitted(c), steps_emitted(c)) =~= Seq::empty());
    } else {
        let first = coordinator_apply(c, evs.first());
        lemma_drain_order(first.0, evs.drop_first());
        let rest = coordinator_run(first.0, evs.drop_first());
        match first.1 {
            Some(step) => {
                assert(drain_order()[steps_emitted(c)] == step);
                assert(seq![step] + drain_order().subrange(
                    steps_emitted(first.0),
                    steps_emitted(rest.0),
                ) =~= drain_order().subrange(steps_emitted(c), steps_emitted(rest.0)));
            },
            None => {
                assert(steps_emitted(first.0) == steps_emitted(c));
            },
        }
    }
}

/// Drain order from the start: a run that begins in the running state hands
/// out exactly the first steps of the drain order, in order — and all four
/// exactly once if the drain ran to its end.
pub proof fn lemma_drain_order_from_start(evs: Seq<CoordinatorEvent>)
    requires
        coordinator_valid_trace(initial_coordinator(), evs),
    ensures
        coordinator_run(initial_coordinator(), evs).1 == drain_order().take(
            coordinator_run(initial_coordinator(), evs).1.len() as int,
        ),
        coordinator_run(initial_coordinator(), evs).0.phase is Terminated ==> coordinator_run(
            initial_coordinator(),
            evs,
        ).1 == drain_order(),
{
    lemma_drain_order(initial_coordinator(), evs);
    let r = coordinator_run(initial_coordinator(), evs);
    assert(drain_order().subrange(0, steps_emitted(r.0)) =~= drain_order().take(
        steps_emitted(r.0),
    ));
    if r.0.phase is Terminated {
        assert(drain_order().take(4) =~= drain_order());
    }
}

} // verus!
