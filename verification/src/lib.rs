//! A pipeline runner: builds and tracks an ordered chain of coprocesses,
//! connecting each stage's standard output to the next stage's standard
//! input, and reduces the stages' exit statuses into a single outcome.
//!
//! The crate contains the decision logic only: which streams each stage
//! gets, how the command interpreter is invoked, and how spawn and wait
//! results drive the run to success or to a single identified failure.
//! The actual process spawning and waiting is performed by the caller,
//! which feeds the results back into the [`runner::Runner`] state machine.

pub mod decimal;
pub mod errors;
pub mod runner;
pub mod status;
pub mod wiring;
