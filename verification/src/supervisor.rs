//! Supervision of the backend worker process.
//!
//! The supervisor owns the child's handle and decides; the caller spawns,
//! reads the child's output, logs and kills, and reports what happened.
//! A supervisor runs at most one child in its life: once the child is gone
//! the supervisor stays terminated.

use vstd::prelude::*;
use crate::port::DEFAULT_PORT;

verus! {

/// Where a supervisor stands. `H` is the handle of the running child.
pub enum Lifecycle<H> {
    /// No child was started yet.
    NotStarted,
    /// The child runs; the supervisor holds its handle.
    Running(H),
    /// The child is gone, or was told to go.
    Terminated,
}

/// The severity at which a line of child output is logged.
#[derive(Clone, Copy, Debug, PartialEq, Eq, Structural)]
pub enum Severity {
    Info,
    Warning,
}

/// Why a child could not be started.
#[derive(Clone, Copy, Debug, PartialEq, Eq, Structural)]
pub enum SpawnError {
    /// The executable is missing, or the operating system refused to create
    /// the process. Startup cannot go on.
    Refused,
    /// This supervisor has had its child already.
    AlreadyStarted,
}

/// One event read from the child's output channel.
#[derive(Debug, PartialEq, Eq)]
pub enum OutputEvent {
    /// A line the child wrote to its standard stream.
    Standard(Vec<u8>),
    /// A line the child wrote to its diagnostic stream.
    Diagnostic(Vec<u8>),
    /// The child has exited.
    Terminated,
    /// The channel ended without a notice of exit.
    Closed,
}

/// What the caller does after handing in an [`OutputEvent`].
#[derive(Debug, PartialEq, Eq)]
pub enum DrainAction {
    /// Log the line at the given severity and keep reading.
    Log { severity: Severity, line: Vec<u8> },
    /// Stop reading: there is no running child to read from.
    Stop,
}

/// Supervises one backend child of handle type `H`.
pub struct ProcessSupervisor<H> {
    lifecycle: Lifecycle<H>,
    port: u16,
}

/// The lifecycle after a start attempt. `spawned` is the handle of the new
/// child, or `None` when it could not be created. Only a supervisor that
/// has not started yet takes a child.
pub open spec fn after_start<H>(lifecycle: Lifecycle<H>, spawned: Option<H>) -> Lifecycle<H> {
    match (lifecycle, spawned) {
        (Lifecycle::NotStarted, Some(handle)) => Lifecycle::Running(handle),
        _ => lifecycle,
    }
}

/// The result of a start attempt.
pub open spec fn start_result<H>(lifecycle: Lifecycle<H>, spawned: Option<H>) -> Result<
    (),
    SpawnError,
> {
    match (lifecycle, spawned) {
        (Lifecycle::NotStarted, Some(_)) => Ok(()),
        (Lifecycle::NotStarted, None) => Err(SpawnError::Refused),
        _ => Err(SpawnError::AlreadyStarted),
    }
}

/// Whether an event ends the reading of a running child's output.
pub open spec fn ends_output(event: OutputEvent) -> bool {
    event is Terminated || event is Closed
}

/// The lifecycle after an output event: a running child whose output ends
/// is terminated; nothing else changes.
pub open spec fn after_output<H>(lifecycle: Lifecycle<H>, event: OutputEvent) -> Lifecycle<H> {
    if lifecycle is Running && ends_output(event) {
        Lifecycle::Terminated
    } else {
        lifecycle
    }
}

/// What to do about an output event: lines of a running child are logged,
/// standard ones as information and diagnostic ones as warnings; everything
/// else stops the reading.
pub open spec fn output_action<H>(lifecycle: Lifecycle<H>, event: OutputEvent) -> DrainAction {
    if lifecycle is Running {
        match event {
            OutputEvent::Standard(line) => DrainAction::Log { severity: Severity::Info, line },
            OutputEvent::Diagnostic(line) => DrainAction::Log { severity: Severity::Warning, line },
            OutputEvent::Terminated => DrainAction::Stop,
            OutputEvent::Closed => DrainAction::Stop,
        }
    } else {
        DrainAction::Stop
    }
}

/// The lifecycle after a termination request.
pub open spec fn after_terminate<H>(lifecycle: Lifecycle<H>) -> Lifecycle<H> {
    match lifecycle {
        Lifecycle::Running(_) => Lifecycle::Terminated,
        _ => lifecycle,
    }
}

/// The handle a termination request hands out to be killed: that of the
/// running child, if there is one.
pub open spec fn to_kill<H>(lifecycle: Lifecycle<H>) -> Option<H> {
    match lifecycle {
        Lifecycle::Running(handle) => Some(handle),
        _ => None,
    }
}

impl<H> ProcessSupervisor<H> {
    /// Where the supervisor stands.
    pub closed spec fn lifecycle(&self) -> Lifecycle<H> {
        self.lifecycle
    }

    /// The port assigned to the backend.
    pub closed spec fn assigned_port(&self) -> u16 {
        self.port
    }

    /// A supervisor without a child, on the well-known port.
    pub fn new() -> (supervisor: Self)
        ensures
            supervisor.lifecycle() is NotStarted,
            supervisor.assigned_port() == DEFAULT_PORT,
    {
        ProcessSupervisor { lifecycle: Lifecycle::NotStarted, port: DEFAULT_PORT }
    }

    /// Whether a child may still be started. Ask before spawning one.
    pub fn can_start(&self) -> (free: bool)
        ensures
            free == self.lifecycle() is NotStarted,
    {
        match &self.lifecycle {
            Lifecycle::NotStarted => true,
            _ => false,
        }
    }

    /// Whether the child runs.
    pub fn is_running(&self) -> (running: bool)
        ensures
            running == self.lifecycle() is Running,
    {
        match &self.lifecycle {
            Lifecycle::Running(_) => true,
            _ => false,
        }
    }

    /// Whether the child is gone for good.
    pub fn is_terminated(&self) -> (terminated: bool)
        ensures
            terminated == self.lifecycle() is Terminated,
    {
        match &self.lifecycle {
            Lifecycle::Terminated => true,
            _ => false,
        }
    }

    /// The port assigned to the backend: the well-known port until a child
    /// was started, then the port it was started on.
    pub fn port(&self) -> (port: u16)
        ensures
            port == self.assigned_port(),
    {
        self.port
    }

    /// Takes over a child that was spawned to listen on `port`.
    ///
    /// `spawned` is the new child's handle, or `None` when the executable
    /// is missing or the process could not be created. Succeeds exactly when
    /// the supervisor had not started yet and there is a child; it then
    /// runs, on that port. In every other case nothing changes.
    pub fn start(&mut self, port: u16, spawned: Option<H>) -> (result: Result<(), SpawnError>)
        ensures
            final(self).lifecycle() == after_start(old(self).lifecycle(), spawned),
            result == start_result(old(self).lifecycle(), spawned),
            final(self).assigned_port() == if result is Ok {
                port
            } else {
                old(self).assigned_port()
            },
    {
        if !self.can_start() {
            return Err(SpawnError::AlreadyStarted);
        }
        match spawned {
            Some(handle) => {
                self.lifecycle = Lifecycle::Running(handle);
                self.port = port;
                Ok(())
            },
            None => Err(SpawnError::Refused),
        }
    }

    /// Takes one event from the child's output channel and says what to do
    /// with it.
    ///
    /// While the child runs, its lines are handed back to be logged. A
    /// notice of exit, and a channel that ended without one, both mark the
    /// child terminated. Without a running child every event stops the
    /// reading.
    pub fn drain_output(&mut self, event: OutputEvent) -> (action: DrainAction)
        ensures
            final(self).lifecycle() == after_output(old(self).lifecycle(), event),
            action == output_action(old(self).lifecycle(), event),
            final(self).assigned_port() == old(self).assigned_port(),
    {
        if !self.is_running() {
            return DrainAction::Stop;
        }
        match event {
            OutputEvent::Standard(line) => DrainAction::Log { severity: Severity::Info, line },
            OutputEvent::Diagnostic(line) => DrainAction::Log { severity: Severity::Warning, line },
            OutputEvent::Terminated => {
                self.lifecycle = Lifecycle::Terminated;
                DrainAction::Stop
            },
            OutputEvent::Closed => {
                self.lifecycle = Lifecycle::Terminated;
                DrainAction::Stop
            },
        }
    }

    /// Ends the supervision.
    ///
    /// Hands out the handle of the running child, for the caller to kill,
    /// and marks the child terminated. Without a running child this does
    /// nothing and hands out nothing, however often it is called.
    pub fn terminate(&mut self) -> (child: Option<H>)
        ensures
            final(self).lifecycle() == after_terminate(old(self).lifecycle()),
            child == to_kill(old(self).lifecycle()),
            final(self).assigned_port() == old(self).assigned_port(),
    {
        if !self.is_running() {
            return None;
        }
        let mut lifecycle = Lifecycle::Terminated;
        core::mem::swap(&mut self.lifecycle, &mut lifecycle);
        match lifecycle {
            Lifecycle::Running(handle) => Some(handle),
            _ => None,
        }
    }
}

/// Terminating twice is the same as terminating once: the second request
/// leaves the supervisor as the first left it, and hands out no child to
/// kill.
pub proof fn lemma_terminate_idempotent<H>(lifecycle: Lifecycle<H>)
    ensures
        after_terminate(after_terminate(lifecycle)) == after_terminate(lifecycle),
        to_kill(after_terminate(lifecycle)) is None,
        !(after_terminate(lifecycle) is Running),
{
}

/// A terminated supervisor stays terminated: it takes no new child, no
/// output event revives it, and terminating it again changes nothing.
pub proof fn lemma_terminated_is_final<H>(
    lifecycle: Lifecycle<H>,
    spawned: Option<H>,
    event: OutputEvent,
)
    requires
        lifecycle is Terminated,
    ensures
        after_start(lifecycle, spawned) == lifecycle,
        start_result(lifecycle, spawned) == Err::<(), SpawnError>(SpawnError::AlreadyStarted),
        after_output(lifecycle, event) == lifecycle,
        output_action(lifecycle, event) == DrainAction::Stop,
        after_terminate(lifecycle) == lifecycle,
{
}

/// A child only ever starts running from a supervisor that has not started
/// yet: no step leads back to the start, and none from terminated to
/// running.
pub proof fn lemma_lifecycle_moves_forward<H>(
    lifecycle: Lifecycle<H>,
    spawned: Option<H>,
    event: OutputEvent,
)
    ensures
        after_start(lifecycle, spawned) is NotStarted ==> lifecycle is NotStarted,
        after_output(lifecycle, event) is NotStarted ==> lifecycle is NotStarted,
        after_terminate(lifecycle) is NotStarted ==> lifecycle is NotStarted,
        after_start(lifecycle, spawned) is Running ==> !(lifecycle is Terminated),
        after_output(lifecycle, event) is Running ==> lifecycle is Running,
        !(after_terminate(lifecycle) is Running),
{
}

/// One thing that happens to a supervisor.
pub enum SupervisorStep<H> {
    /// A start attempt, with the spawned child if there is one.
    Start(Option<H>),
    /// An event from the child's output channel.
    Output(OutputEvent),
    /// A termination request.
    Terminate,
}

/// The lifecycle after one step.
pub open spec fn after_step<H>(lifecycle: Lifecycle<H>, step: SupervisorStep<H>) -> Lifecycle<H> {
    match step {
        SupervisorStep::Start(spawned) => after_start(lifecycle, spawned),
        SupervisorStep::Output(event) => after_output(lifecycle, event),
        SupervisorStep::Terminate => after_terminate(lifecycle),
    }
}

/// The lifecycle after a sequence of steps.
pub open spec fn after_steps<H>(lifecycle: Lifecycle<H>, steps: Seq<SupervisorStep<H>>) -> Lifecycle<
    H,
>
    decreases steps.len(),
{
    if steps.len() == 0 {
        lifecycle
    } else {
        after_step(after_steps(lifecycle, steps.drop_last()), steps.last())
    }
}

/// The number of children handed out to be killed in a sequence of steps.
pub open spec fn kills<H>(lifecycle: Lifecycle<H>, steps: Seq<SupervisorStep<H>>) -> nat
    decreases steps.len(),
{
    if steps.len() == 0 {
        0
    } else {
        let before = after_steps(lifecycle, steps.drop_last());
        let now: nat = if steps.last() is Terminate && to_kill(before) is Some {
            1
        } else {
            0
        };
        kills(lifecycle, steps.drop_last()) + now
    }
}

/// Whatever happens to a supervisor, it hands out at most one child to be
/// killed, and none once it is terminated; and a supervisor that was
/// terminated at some point is terminated ever after.
pub proof fn lemma_child_is_killed_at_most_once<H>(
    lifecycle: Lifecycle<H>,
    steps: Seq<SupervisorStep<H>>,
)
    ensures
        kills(lifecycle, steps) <= 1,
        lifecycle is Terminated ==> kills(lifecycle, steps) == 0,
        lifecycle is Terminated ==> after_steps(lifecycle, steps) is Terminated,
        kills(lifecycle, steps) == 1 ==> after_steps(lifecycle, steps) is Terminated,
    decreases steps.len(),
{
    if steps.len() > 0 {
        lemma_child_is_killed_at_most_once(lifecycle, steps.drop_last());
    }
}

/// A supervisor runs at most one child: once it has started, a step either
/// leaves it as it is or terminates it, so the child that runs is never
/// replaced by another.
pub proof fn lemma_one_child_per_supervisor<H>(
    lifecycle: Lifecycle<H>,
    steps: Seq<SupervisorStep<H>>,
    at: int,
)
    requires
        0 <= at < steps.len(),
        !(after_steps(lifecycle, steps.take(at)) is NotStarted),
    ensures
        after_steps(lifecycle, steps.take(at + 1)) == after_steps(lifecycle, steps.take(at))
            || after_steps(lifecycle, steps.take(at + 1)) is Terminated,
{
    let longer = steps.take(at + 1);
    assert(longer.drop_last() =~= steps.take(at));
    assert(longer.last() == steps[at]);
}

} // verus!
