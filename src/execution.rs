//! Decisions of the worker runner and the drivers: panic payloads, the
//! interrupt flag, and when to stop waiting.

use vstd::prelude::*;

verus! {

/// An error raised by the host language, carried as a panic payload.
#[derive(Debug, Clone, PartialEq, Eq)]
pub struct HostError {
    /// Whether the host raised its interrupt (keyboard interrupt) error.
    pub is_interrupt: bool,
    pub message: String,
}

/// The payload of a worker panic, as the driver finds it.
#[derive(Debug, Clone, PartialEq, Eq)]
pub enum PanicPayload {
    /// A typed error of the host.
    Host(HostError),
    /// A text message (from the scheduler, or a plain panic).
    Text(String),
    /// Anything else.
    Unknown,
}

/// The error that a run of a dataflow surfaces to its caller.
#[derive(Debug, Clone, PartialEq, Eq)]
pub enum ExecutionError {
    /// An interrupt was received and all workers were shut down.
    Interrupted,
    /// A user function raised this error.
    User(HostError),
    /// The scheduler or the communication failed.
    Runtime(String),
}

/// Classifies the payload of a worker panic: the host's interrupt
/// surfaces as an interrupt, another host error is raised again, a text
/// becomes a runtime error with that text, and anything else a runtime
/// error that says the error is unknown.
pub fn classify_panic(p: PanicPayload) -> (r: ExecutionError)
    ensures
        match p {
            PanicPayload::Host(e) => if e.is_interrupt {
                r == ExecutionError::Interrupted
            } else {
                r == ExecutionError::User(e)
            },
            PanicPayload::Text(m) => r == ExecutionError::Runtime(m),
            PanicPayload::Unknown => r is Runtime && r->Runtime_0@ == "unknown error"@,
        },
{
    match p {
        PanicPayload::Host(e) => {
            if e.is_interrupt {
                ExecutionError::Interrupted
            } else {
                ExecutionError::User(e)
            }
        },
        PanicPayload::Text(m) => ExecutionError::Runtime(m),
        PanicPayload::Unknown => ExecutionError::Runtime(String::from_str("unknown error")),
    }
}

/// The first error among the workers' results, in worker order: one error
/// surfaces per run.
pub fn first_failure(results: Vec<Option<ExecutionError>>) -> (r: Option<ExecutionError>)
    ensures
        r is None ==> forall|i: int| 0 <= i < results@.len() ==> #[trigger] results@[i] is None,
        r is Some ==> exists|i: int|
            0 <= i < results@.len() && #[trigger] results@[i] == r
            && forall|j: int| 0 <= j < i ==> #[trigger] results@[j] is None,
{
    let mut rest = results;
    let mut i: usize = 0;
    while i < rest.len()
        invariant
            rest@ == results@,
            i <= results@.len(),
            forall|j: int| 0 <= j < i ==> #[trigger] results@[j] is None,
        decreases results@.len() - i,
    {
        let failed = match &rest[i] {
            Some(_) => true,
            None => false,
        };
        if failed {
            let found = rest.remove(i);
            assert(results@[i as int] == found);
            return found;
        }
        i = i + 1;
    }
    None
}

/// The flag that tells every worker of a process to shut down.
#[derive(Debug, Clone, Copy, PartialEq, Eq, Structural)]
pub struct InterruptFlag {
    pub set: bool,
}

/// The flag after an interrupt was requested.
pub open spec fn after_interrupt(f: InterruptFlag) -> InterruptFlag {
    InterruptFlag { set: true }
}

impl InterruptFlag {
    /// A flag that no one has set.
    pub fn new() -> (r: Self)
        ensures
            !r.set,
    {
        InterruptFlag { set: false }
    }

    /// Requests that the workers shut down.
    pub fn interrupt(&mut self)
        ensures
            *final(self) == after_interrupt(*old(self)),
    {
        self.set = true;
    }

    /// Whether shutting down was requested.
    pub fn is_set(&self) -> (r: bool)
        ensures
            r == self.set,
    {
        self.set
    }
}

/// Where a worker stands between two scheduler steps.
#[derive(Debug, Clone, Copy, PartialEq, Eq, Structural)]
pub enum WorkerStatus {
    /// Keep stepping the scheduler.
    Running,
    /// Every input retired and the output frontier is past every epoch.
    Finished,
    /// Shutting down was requested: stop stepping once outputs flushed.
    Interrupted,
}

/// A worker's status, given its interrupt flag and whether its output
/// frontier is past every epoch.
pub open spec fn status_of(interrupt: bool, frontier_done: bool) -> WorkerStatus {
    if frontier_done {
        WorkerStatus::Finished
    } else if interrupt {
        WorkerStatus::Interrupted
    } else {
        WorkerStatus::Running
    }
}

/// What a worker does next.
pub fn worker_status(flag: &InterruptFlag, frontier_done: bool) -> (r: WorkerStatus)
    ensures
        r == status_of(flag.set, frontier_done),
{
    if frontier_done {
        WorkerStatus::Finished
    } else if flag.is_set() {
        WorkerStatus::Interrupted
    } else {
        WorkerStatus::Running
    }
}

/// Setting the interrupt flag again changes nothing: the flag, and what
/// every worker does next, are as after the first time.
pub proof fn interrupt_idempotent(f: InterruptFlag, frontier_done: bool)
    ensures
        after_interrupt(after_interrupt(f)) == after_interrupt(f),
        status_of(after_interrupt(after_interrupt(f)).set, frontier_done) == status_of(
            after_interrupt(f).set,
            frontier_done,
        ),
{
}

/// What a driver that waits on workers or child processes does next.
#[derive(Debug, Clone, Copy, PartialEq, Eq, Structural)]
pub enum WaitAction {
    /// Everything it waits on has ended.
    Done,
    /// Sleep a moment and look again.
    KeepWaiting,
    /// An interrupt arrived: tell everything to stop, then surface it.
    ShutDown,
}

/// Decides a driver's next move from whether all it waits on ended and
/// whether an interrupt signal is pending.
pub fn wait_action(all_ended: bool, signal_pending: bool) -> (r: WaitAction)
    ensures
        r == (if all_ended {
            WaitAction::Done
        } else if signal_pending {
            WaitAction::ShutDown
        } else {
            WaitAction::KeepWaiting
        }),
{
    if all_ended {
        WaitAction::Done
    } else if signal_pending {
        WaitAction::ShutDown
    } else {
        WaitAction::KeepWaiting
    }
}

} // verus!
