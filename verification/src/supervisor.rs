//! Process supervision: launch the backend command, watch it, and relaunch it
//! once per observed exit, until a launch fails or the run is cancelled.
//!
//! The surrounding program spawns the process and awaits its exit; every
//! decision — whether to relaunch, when to halt, that at most one child is
//! ever live — is taken here.  A failed launch halts supervision (the command
//! itself is presumed broken), but only supervision: listeners go on serving.

use vstd::prelude::*;

verus! {

/// Where the restart loop stands.
#[derive(Clone, Copy, PartialEq, Eq, Structural)]
pub enum SupervisorPhase {
    /// No child is live; the next step is to launch the command.
    ReadyToLaunch,
    /// Exactly one child is live: the launch of the given generation.
    Supervising { generation: u64 },
    /// A launch failed; the loop stops without relaunching.
    LaunchFailed,
    /// The run was cancelled; no further launch is attempted.
    Cancelled,
}

/// The restart loop's state: how many launches and observed exits have
/// happened, and what the loop does next.
pub struct Supervisor {
    /// Number of successful launches so far.
    pub launches: u64,
    /// Number of observed exits so far.
    pub exits: u64,
    pub phase: SupervisorPhase,
}

/// What the surrounding program does after reporting a launch attempt.
#[derive(Clone, Copy, PartialEq, Eq, Structural)]
pub enum LaunchAction {
    /// Attach one output redirector to each captured output stream of the
    /// child of this generation, then await its exit.
    AttachAndAwait { generation: u64 },
    /// Log the launch failure and stop supervising.
    HaltSupervision,
}

/// What the surrounding program does after reporting an observed exit: stop
/// the exited child's redirectors, log the exit, and launch again.
#[derive(Clone, Copy, PartialEq, Eq, Structural)]
pub struct ExitAction {
    /// The generation whose redirectors are cancelled.
    pub cancel_redirectors_of: u64,
}

impl Supervisor {
    /// How many children are live: never more than one.
    pub open spec fn live_children(self) -> int {
        if self.phase is Supervising {
            1
        } else {
            0
        }
    }

    /// The counters and the phase agree: a child is live exactly when one
    /// more launch than exits has happened, the live child is the latest
    /// generation, and every observed exit answered exactly one launch.
    pub open spec fn wf(self) -> bool {
        &&& match self.phase {
            SupervisorPhase::ReadyToLaunch => self.launches == self.exits,
            SupervisorPhase::Supervising { generation } => {
                &&& self.launches == self.exits + 1
                &&& generation + 1 == self.launches
            },
            SupervisorPhase::LaunchFailed => self.launches == self.exits,
            SupervisorPhase::Cancelled => self.exits <= self.launches <= self.exits + 1,
        }
    }

    /// A fresh supervisor: nothing launched, ready for the first launch.
    pub fn new() -> (s: Supervisor)
        ensures
            s == initial_supervisor(),
            s.wf(),
    {
        Supervisor { launches: 0, exits: 0, phase: SupervisorPhase::ReadyToLaunch }
    }

    /// Records the outcome of one launch attempt.  On success exactly one
    /// child becomes live; on failure the loop halts and never relaunches.
    pub fn on_launch_result(&mut self, ok: bool) -> (a: LaunchAction)
        requires
            old(self).wf(),
            old(self).phase is ReadyToLaunch,
            old(self).launches < u64::MAX,
        ensures
            *final(self) == spec_launch_result(*old(self), ok),
            final(self).wf(),
            ok ==> a == (LaunchAction::AttachAndAwait { generation: old(self).launches })
                && final(self).live_children() == 1,
            !ok ==> a == LaunchAction::HaltSupervision && final(self).phase is LaunchFailed
                && final(self).live_children() == 0,
            final(self).exits == old(self).exits,
    {
        if ok {
            let generation = self.launches;
            self.launches = self.launches + 1;
            self.phase = SupervisorPhase::Supervising { generation };
            LaunchAction::AttachAndAwait { generation }
        } else {
            self.phase = SupervisorPhase::LaunchFailed;
            LaunchAction::HaltSupervision
        }
    }

    /// Records one observed exit of the live child, of any status.  The child
    /// is gone, its redirectors are to be cancelled, and the loop comes back
    /// to `ReadyToLaunch`: exactly one relaunch follows per exit.
    pub fn on_exit(&mut self) -> (a: ExitAction)
        requires
            old(self).wf(),
            old(self).phase is Supervising,
        ensures
            *final(self) == spec_exit(*old(self)),
            final(self).wf(),
            final(self).phase is ReadyToLaunch,
            final(self).exits == old(self).exits + 1,
            final(self).launches == old(self).launches,
            final(self).live_children() == 0,
            a.cancel_redirectors_of + 1 == old(self).launches,
    {
        let generation = match self.phase {
            SupervisorPhase::Supervising { generation } => generation,
            _ => 0,
        };
        self.exits = self.exits + 1;
        self.phase = SupervisorPhase::ReadyToLaunch;
        ExitAction { cancel_redirectors_of: generation }
    }

    /// Cancels supervision: no further launch is attempted.  A still-live
    /// child is left to the shutdown command; the counters keep their values.
    pub fn on_cancel(&mut self)
        ensures
            *final(self) == spec_cancel(*old(self)),
            final(self).phase is Cancelled,
            final(self).launches == old(self).launches,
            final(self).exits == old(self).exits,
            old(self).wf() ==> final(self).wf(),
    {
        self.phase = SupervisorPhase::Cancelled;
    }
}

/// A fresh supervisor: nothing launched, nothing exited.
pub open spec fn initial_supervisor() -> Supervisor {
    Supervisor { launches: 0, exits: 0, phase: SupervisorPhase::ReadyToLaunch }
}

/// The state after a launch attempt with outcome `ok`.
pub open spec fn spec_launch_result(s: Supervisor, ok: bool) -> Supervisor {
    if ok {
        Supervisor {
            launches: (s.launches + 1) as u64,
            phase: SupervisorPhase::Supervising { generation: s.launches },
            ..s
        }
    } else {
        Supervisor { phase: SupervisorPhase::LaunchFailed, ..s }
    }
}

/// The state after one observed exit.
pub open spec fn spec_exit(s: Supervisor) -> Supervisor {
    Supervisor { exits: (s.exits + 1) as u64, phase: SupervisorPhase::ReadyToLaunch, ..s }
}

/// The state after cancellation.
pub open spec fn spec_cancel(s: Supervisor) -> Supervisor {
    Supervisor { phase: SupervisorPhase::Cancelled, ..s }
}

/// One observable event of the restart loop, as reported by the surrounding
/// program.
#[derive(Clone, Copy, PartialEq, Eq, Structural)]
pub enum SupervisorEvent {
    /// A launch attempt finished with the given outcome.
    LaunchResult { ok: bool },
    /// The live child exited, with any status.
    Exited,
}

/// Whether the event can be reported in state `s`: the contract of the step
/// that records it.
pub open spec fn event_allowed(s: Supervisor, e: SupervisorEvent) -> bool {
    match e {
        SupervisorEvent::LaunchResult { .. } => s.phase is ReadyToLaunch && s.launches < u64::MAX,
        SupervisorEvent::Exited => s.phase is Supervising,
    }
}

/// The state after event `e`.
pub open spec fn apply_event(s: Supervisor, e: SupervisorEvent) -> Supervisor {
    match e {
        SupervisorEvent::LaunchResult { ok } => spec_launch_result(s, ok),
        SupervisorEvent::Exited => spec_exit(s),
    }
}

/// The state after the whole event sequence, first event first.
pub open spec fn apply_events(s: Supervisor, evs: Seq<SupervisorEvent>) -> Supervisor
    decreases evs.len(),
{
    if evs.len() == 0 {
        s
    } else {
        apply_events(apply_event(s, evs.first()), evs.drop_first())
    }
}

/// Whether every event of the sequence is allowed in the state it meets.
pub open spec fn valid_trace(s: Supervisor, evs: Seq<SupervisorEvent>) -> bool
    decreases evs.len(),
{
    evs.len() == 0 || (event_allowed(s, evs.first()) && valid_trace(
        apply_event(s, evs.first()),
        evs.drop_first(),
    ))
}

/// How many successful launches the events report.
pub open spec fn count_launches(evs: Seq<SupervisorEvent>) -> int
    decreases evs.len(),
{
    if evs.len() == 0 {
        0
    } else {
        (if evs.first() == (SupervisorEvent::LaunchResult { ok: true }) {
            1int
        } else {
            0int
        }) + count_launches(evs.drop_first())
    }
}

/// How many exits the events report.
pub open spec fn count_exits(evs: Seq<SupervisorEvent>) -> int
    decreases evs.len(),
{
    if evs.len() == 0 {
        0
    } else {
        (if evs.first() is Exited {
            1int
        } else {
            0int
        }) + count_exits(evs.drop_first())
    }
}

/// A prefix of a valid trace is itself valid.
pub proof fn lemma_valid_trace_take(s: Supervisor, evs: Seq<SupervisorEvent>, k: int)
    requires
        valid_trace(s, evs),
        0 <= k <= evs.len(),
    ensures
        valid_trace(s, evs.take(k)),
    decreases evs.len(),
{
    if evs.len() == 0 || k == 0 {
        assert(evs.take(k) =~= Seq::empty());
    } else {
        assert(evs.take(k).first() == evs.first());
        assert(evs.take(k).drop_first() =~= evs.drop_first().take(k - 1));
        lemma_valid_trace_take(apply_event(s, evs.first()), evs.drop_first(), k - 1);
    }
}

/// Restart invariant: over any run of launch outcomes and observed exits —
/// exits of status zero and non-zero alike — every step keeps the
/// supervisor's invariant, the launch count grows by exactly the successful
/// launches and the exit count by exactly the exits, and at no point is more
/// than one child live: each exit is answered by at most one relaunch.
pub proof fn lemma_restart_invariant(s: Supervisor, evs: Seq<SupervisorEvent>)
    requires
        s.wf(),
        valid_trace(s, evs),
    ensures
        apply_events(s, evs).wf(),
        apply_events(s, evs).launches == s.launches + count_launches(evs),
        apply_events(s, evs).exits == s.exits + count_exits(evs),
        apply_events(s, evs).live_children() <= 1,
    decreases evs.len(),
{
    if evs.len() > 0 {
        let s1 = apply_event(s, evs.first());
        lemma_restart_invariant(s1, evs.drop_first());
    }
}

/// Restart invariant at the start state: from a fresh supervisor, a valid
/// run reaches a state whose launch count exceeds its exit count by at most
/// one — exactly one relaunch per exit, never a second live child — and the
/// same holds at every prefix of the run.
pub proof fn lemma_restart_invariant_from_start(evs: Seq<SupervisorEvent>)
    requires
        valid_trace(initial_supervisor(), evs),
    ensures
        apply_events(initial_supervisor(), evs).launches == count_launches(evs),
        apply_events(initial_supervisor(), evs).exits == count_exits(evs),
        count_exits(evs) <= count_launches(evs) <= count_exits(evs) + 1,
        forall|k: int|
            0 <= k <= evs.len() ==> apply_events(
                initial_supervisor(),
                #[trigger] evs.take(k),
            ).wf() && apply_events(initial_supervisor(), evs.take(k)).live_children() <= 1,
{
    lemma_restart_invariant(initial_supervisor(), evs);
    assert forall|k: int| 0 <= k <= evs.len() implies apply_events(
        initial_supervisor(),
        #[trigger] evs.take(k),
    ).wf() && apply_events(initial_supervisor(), evs.take(k)).live_children() <= 1 by {
        lemma_valid_trace_take(initial_supervisor(), evs, k);
        lemma_restart_invariant(initial_supervisor(), evs.take(k));
    }
}

} // verus!
