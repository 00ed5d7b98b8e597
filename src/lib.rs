//! The core of running child processes: a bounded tail buffer for captured
//! output, the decisions of a deadline-aware wait, the assembly of one outcome
//! per execution, and the per-thread bookkeeping of a reentrant read/write
//! lock that guards scoped changes of a shared directory and environment.

pub mod descriptor;
pub mod fs;
pub mod lock;
pub mod outcome;
pub mod paths;
pub mod scope;
pub mod sink;
pub mod waiter;
