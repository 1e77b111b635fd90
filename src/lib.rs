//! Execution core of a stateful streaming dataflow runtime.
//!
//! The library decides, from plain values, everything that the runtime
//! does around the scheduler: which operators a worker constructs for a
//! blueprint and in what order, which recovery state each stateful step
//! receives, how per-key state evolves in stateful steps, which progress
//! records are written and where a restart resumes, how a launch request
//! is resolved, and how a worker failure is reported.

pub mod blueprint;
pub mod compile;
pub mod execution;
pub mod launch;
pub mod progress;
pub mod stateful;
pub mod span;
pub mod state;
pub mod worker;

pub use progress::{initial_progress, Change, KChange, ProgressMsg, ProgressObserver, ResumeFrom};
pub use state::{FlowStateBytes, KeyedBytes};
pub use worker::{WorkerCount, WorkerIndex, WorkerKey};
