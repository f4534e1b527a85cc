//! Invocation of an external worker process, seen from the caller's side:
//! build the argument vector for one request, and map the captured outcome
//! of the run (exit status, output streams) to a success or failure result.

pub mod invoke;
pub mod text;
