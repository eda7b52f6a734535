//! Runtime discriminants for the executor abstraction.  The executor
//! capability set itself (spawning tasks, timers) is async plumbing and
//! lives with the shell that hosts the connection's tasks; the core only
//! needs to know which runtime it is on.

use vstd::prelude::*;

verus! {

/// Which async runtime hosts the connection's tasks; the bootstrap
/// picks its TCP/TLS backend by this.
#[derive(Clone, Copy, Debug)]
pub enum ExecutorKind {
    Tokio,
    AsyncStd,
}

/// Marker for the async-std runtime.
#[derive(Clone, Copy, Debug)]
pub struct AsyncStdExecutor;

} // verus!
