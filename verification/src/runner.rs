//! The runner: the fixed addresses, the shell invocation of the backend
//! commands, and the engine that ties supervisor, listeners and shutdown
//! coordinator together.
//!
//! [`run`] assembles a fresh engine from parsed arguments.  The surrounding
//! program owns the sockets, processes and signal handler; it reports their
//! events to the engine's machines and performs the actions they return.

use crate::config::Args;
use crate::config::string_views;
use crate::listener::ListenerSet;
use crate::listener::ListenerStatus;
use crate::shutdown::Coordinator;
use crate::shutdown::CoordinatorPhase;
use crate::shutdown::DrainStep;
use crate::shutdown::initial_coordinator;
use crate::supervisor::Supervisor;
use crate::supervisor::initial_supervisor;
use crate::supervisor::spec_cancel;
use vstd::prelude::*;
use vstd::string::StrSliceExecFns;
use vstd::string::StringExecFns;

verus! {

/// The error a run ends with when it cannot do its work.
#[derive(Debug, PartialEq, Eq)]
pub enum RunnerError {
    /// A failure of the run's own making, described in words.
    Internal(String),
    /// An I/O failure, described in words.
    Io(String),
    /// A platform call failed, described in words.
    Windows(String),
}

impl RunnerError {
    /// The description the error carries.
    pub fn text(&self) -> (t: &String)
        ensures
            t@ == self.spec_text(),
    {
        match self {
            RunnerError::Internal(m) => m,
            RunnerError::Io(m) => m,
            RunnerError::Windows(m) => m,
        }
    }

    /// The description the error carries.
    pub open spec fn spec_text(self) -> Seq<char> {
        match self {
            RunnerError::Internal(m) => m@,
            RunnerError::Io(m) => m@,
            RunnerError::Windows(m) => m@,
        }
    }
}

/// The addresses the runner listens on, separated by spaces.
pub open spec fn default_listen_addresses_spec() -> Seq<char> {
    "0.0.0.0:22 :::22"@
}

/// The backend address dialed for every accepted connection.
pub open spec fn default_target_address_spec() -> Seq<char> {
    "localhost:2022"@
}

/// Whether `c` separates listen addresses.
pub open spec fn is_space(c: char) -> bool {
    c == ' ' || c == '\t' || c == '\n' || c == '\r' || c == '\u{000b}' || c == '\u{000c}'
}

/// The tokens of `s` from position `i` on, given the token read so far
/// (`cur`) and the tokens already complete (`acc`).
pub open spec fn split_ws_from(s: Seq<char>, i: int, cur: Seq<char>, acc: Seq<Seq<char>>) -> Seq<
    Seq<char>,
>
    decreases s.len() - i,
{
    if i < 0 || i >= s.len() {
        if cur.len() > 0 {
            acc.push(cur)
        } else {
            acc
        }
    } else if is_space(s[i]) {
        if cur.len() > 0 {
            split_ws_from(s, i + 1, Seq::empty(), acc.push(cur))
        } else {
            split_ws_from(s, i + 1, cur, acc)
        }
    } else {
        split_ws_from(s, i + 1, cur.push(s[i]), acc)
    }
}

/// The maximal runs of non-separator characters of `s`, in order.
pub open spec fn whitespace_tokens(s: Seq<char>) -> Seq<Seq<char>> {
    split_ws_from(s, 0, Seq::empty(), Seq::empty())
}

/// Whether `c` separates listen addresses.
pub fn is_space_exec(c: char) -> (r: bool)
    ensures
        r == is_space(c),
{
    c == ' ' || c == '\t' || c == '\n' || c == '\r' || c == '\u{000b}' || c == '\u{000c}'
}

/// Splits `s` into its maximal runs of non-whitespace characters: one listen
/// address per token.
pub fn split_whitespace(s: &str) -> (tokens: Vec<String>)
    ensures
        string_views(tokens@) == whitespace_tokens(s@),
{
    let n = s.unicode_len();
    let mut tokens: Vec<String> = Vec::new();
    let mut start: Option<usize> = None;
    let mut i: usize = 0;
    proof {
        assert(string_views(tokens@) =~= Seq::<Seq<char>>::empty());
    }
    while i < n
        invariant
            n == s@.len(),
            i <= n,
            match start {
                Some(j) => j < i && whitespace_tokens(s@) == split_ws_from(
                    s@,
                    i as int,
                    s@.subrange(j as int, i as int),
                    string_views(tokens@),
                ),
                None => whitespace_tokens(s@) == split_ws_from(
                    s@,
                    i as int,
                    Seq::empty(),
                    string_views(tokens@),
                ),
            },
        decreases n - i,
    {
        let c = s.get_char(i);
        if is_space_exec(c) {
            match start {
                Some(j) => {
                    let token = String::from_str(s.substring_char(j, i));
                    proof {
                        lemma_views_push(tokens@, token);
                    }
                    tokens.push(token);
                    start = None;
                },
                None => {},
            }
        } else {
            match start {
                Some(j) => {
                    proof {
                        assert(s@.subrange(j as int, i as int).push(s@[i as int]) =~= s@.subrange(
                            j as int,
                            i + 1,
                        ));
                    }
                },
                None => {
                    proof {
                        assert(Seq::empty().push(s@[i as int]) =~= s@.subrange(
                            i as int,
                            i + 1,
                        ));
                    }
                    start = Some(i);
                },
            }
        }
        i = i + 1;
    }
    match start {
        Some(j) => {
            let token = String::from_str(s.substring_char(j, n));
            proof {
                lemma_views_push(tokens@, token);
            }
            tokens.push(token);
        },
        None => {},
    }
    tokens
}

proof fn lemma_views_push(ts: Seq<String>, t: String)
    ensures
        string_views(ts.push(t)) =~= string_views(ts).push(t@),
{
}

/// The shell invocation that runs one opaque command string: the fixed
/// convention `wsl bash -c <command>`.
pub struct CommandInvocation {
    pub program: String,
    pub args: Vec<String>,
}

/// Builds the invocation that launches `cmd` inside the hosted environment.
/// The command's semantics are not interpreted.
pub fn launch_invocation(cmd: &str) -> (inv: CommandInvocation)
    ensures
        inv.program@ == "wsl"@,
        inv.args@.len() == 3,
        inv.args@[0]@ == "bash"@,
        inv.args@[1]@ == "-c"@,
        inv.args@[2]@ == cmd@,
{
    let mut args: Vec<String> = Vec::new();
    args.push(String::from_str("bash"));
    args.push(String::from_str("-c"));
    args.push(String::from_str(cmd));
    CommandInvocation { program: String::from_str("wsl"), args }
}

/// The runner's read-only configuration: where to listen, where to dial, and
/// the two backend commands.
pub struct WslRunner {
    pub listen_addresses: String,
    pub target_address: String,
    pub launch_command: String,
    pub shutdown_command: String,
}

impl WslRunner {
    /// A runner over the fixed listen and target addresses with the given
    /// backend commands.
    pub fn new(launch_command: &str, shutdown_command: &str) -> (r: WslRunner)
        ensures
            r.listen_addresses@ == default_listen_addresses_spec(),
            r.target_address@ == default_target_address_spec(),
            r.launch_command@ == launch_command@,
            r.shutdown_command@ == shutdown_command@,
    {
        WslRunner {
            listen_addresses: String::from_str("0.0.0.0:22 :::22"),
            target_address: String::from_str("localhost:2022"),
            launch_command: String::from_str(launch_command),
            shutdown_command: String::from_str(shutdown_command),
        }
    }

    /// Assembles the engine of a starting run: one planned listener per
    /// configured address, a supervisor ready for the first launch, and a
    /// coordinator waiting for the termination signal.
    pub fn run(self) -> (e: Engine)
        ensures
            e.fresh_for(
                self.listen_addresses@,
                self.target_address@,
                self.launch_command@,
                self.shutdown_command@,
            ),
    {
        let addresses = split_whitespace(self.listen_addresses.as_str());
        let listeners = ListenerSet::plan(&addresses);
        Engine {
            supervisor: Supervisor::new(),
            listeners,
            coordinator: Coordinator::new(),
            config: self,
        }
    }
}

/// The whole decision core of one run.  The supervisor and the listeners are
/// driven directly by the surrounding program; the termination signal and the
/// drain steps go through the engine, which keeps their order.  Relays that
/// are still in flight when the drain ends are not awaited: they are
/// abandoned to the operating system's teardown, a deliberate trade-off.
pub struct Engine {
    pub config: WslRunner,
    pub supervisor: Supervisor,
    pub listeners: ListenerSet,
    pub coordinator: Coordinator,
}

/// The outside work the surrounding program owes the engine next, while the
/// drain runs.
#[derive(Clone, Copy, PartialEq, Eq, Structural)]
pub enum EngineStep {
    /// Run the shutdown command against the backend, wait for it, and report
    /// the outcome.
    RunShutdownCommand,
    /// Await the backend process's final exit and report the outcome.
    AwaitBackendExit,
    /// The drain is complete; the run's result is ready.
    Finished,
}

impl Engine {
    /// A freshly assembled engine for the given configuration: every machine
    /// in its initial state, one unbound listener per configured address.
    pub open spec fn fresh_for(
        self,
        listen: Seq<char>,
        target: Seq<char>,
        launch: Seq<char>,
        shutdown: Seq<char>,
    ) -> bool {
        &&& self.config.listen_addresses@ == listen
        &&& self.config.target_address@ == target
        &&& self.config.launch_command@ == launch
        &&& self.config.shutdown_command@ == shutdown
        &&& self.supervisor == initial_supervisor()
        &&& self.coordinator == initial_coordinator()
        &&& self.listeners.listeners@.len() == whitespace_tokens(listen).len()
        &&& forall|i: int|
            0 <= i < whitespace_tokens(listen).len() ==> {
                &&& (#[trigger] self.listeners.listeners@[i]).address@ == whitespace_tokens(
                    listen,
                )[i]
                &&& self.listeners.listeners@[i].status == ListenerStatus::AwaitingBind
                &&& self.listeners.listeners@[i].accepted == 0
            }
    }

    /// Takes one termination signal.  The first signal cancels the
    /// supervisor — the first drain step — and hands back the first piece of
    /// outside work, running the shutdown command.  Every later signal
    /// returns `None` and changes nothing: the drain runs once.
    pub fn on_signal(&mut self) -> (a: Option<EngineStep>)
        ensures
            !(old(self).coordinator.phase is Running) ==> *final(self) == *old(self) && a is None,
            old(self).coordinator.phase is Running ==> {
                &&& a == Some(EngineStep::RunShutdownCommand)
                &&& final(self).supervisor == spec_cancel(old(self).supervisor)
                &&& final(self).coordinator.phase == (CoordinatorPhase::Draining {
                    step: DrainStep::RunShutdownCommand,
                })
                &&& final(self).coordinator.step_failed == old(self).coordinator.step_failed
                &&& final(self).listeners == old(self).listeners
                &&& final(self).config == old(self).config
            },
    {
        let first = self.coordinator.on_signal();
        match first {
            Some(_) => {
                self.supervisor.on_cancel();
                let _ = self.coordinator.on_step_done(true);
                Some(EngineStep::RunShutdownCommand)
            },
            None => None,
        }
    }

    /// Records the outcome of the shutdown command — its failure is recorded,
    /// never blocking — and hands back the next piece of outside work,
    /// awaiting the backend's final exit.
    pub fn on_shutdown_command_done(&mut self, ok: bool) -> (a: EngineStep)
        requires
            old(self).coordinator.phase == (CoordinatorPhase::Draining {
                step: DrainStep::RunShutdownCommand,
            }),
        ensures
            a == EngineStep::AwaitBackendExit,
            final(self).coordinator.phase == (CoordinatorPhase::Draining {
                step: DrainStep::AwaitBackendExit,
            }),
            final(self).coordinator.step_failed == (old(self).coordinator.step_failed || !ok),
            final(self).supervisor == old(self).supervisor,
            final(self).listeners == old(self).listeners,
            final(self).config == old(self).config,
    {
        let _ = self.coordinator.on_step_done(ok);
        EngineStep::AwaitBackendExit
    }

    /// Records that the backend's final exit was awaited, then performs the
    /// last drain step — cancelling every listener — and terminates the
    /// coordinator.  The run's result is ready afterwards.
    pub fn on_backend_exit_done(&mut self, ok: bool) -> (a: EngineStep)
        requires
            old(self).coordinator.phase == (CoordinatorPhase::Draining {
                step: DrainStep::AwaitBackendExit,
            }),
        ensures
            a == EngineStep::Finished,
            final(self).coordinator.phase is Terminated,
            final(self).coordinator.step_failed == (old(self).coordinator.step_failed || !ok),
            final(self).supervisor == old(self).supervisor,
            final(self).config == old(self).config,
            final(self).listeners.listeners@.len() == old(self).listeners.listeners@.len(),
            forall|j: int|
                0 <= j < old(self).listeners.listeners@.len() ==> (
                #[trigger] final(self).listeners.listeners@[j]).status == ListenerStatus::Stopped
                    && final(self).listeners.listeners@[j].address == old(
                    self,
                ).listeners.listeners@[j].address,
    {
        let _ = self.coordinator.on_step_done(ok);
        self.listeners.on_cancel();
        let _ = self.coordinator.on_step_done(true);
        EngineStep::Finished
    }

    /// The result the process exits with: clean exactly when no drain step
    /// failed, and otherwise an error saying the teardown was not clean.
    pub fn outcome(&self) -> (r: Result<(), RunnerError>)
        requires
            self.coordinator.phase is Terminated,
        ensures
            r is Ok <==> !self.coordinator.step_failed,
            r matches Err(e) ==> e matches RunnerError::Io(m) && m@
                == "a step of the shutdown sequence failed"@,
    {
        if self.coordinator.succeeded() {
            Ok(())
        } else {
            Err(RunnerError::Io(String::from_str("a step of the shutdown sequence failed")))
        }
    }
}

/// Starts a run: the runner over the parsed arguments, every machine in its
/// initial state.  The surrounding program then binds, spawns, accepts and
/// dials as the machines direct.
pub fn run(args: Args) -> (e: Engine)
    ensures
        e.fresh_for(
            default_listen_addresses_spec(),
            default_target_address_spec(),
            args.launch_command@,
            args.shutdown_command@,
        ),
{
    WslRunner::new(args.launch_command.as_str(), args.shutdown_command.as_str()).run()
}

} // verus!
