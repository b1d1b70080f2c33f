//! Process-wide lifecycle state: the active port and the owned child handle.
//!
//! The handle leaves the state by take-and-clear, so of the two racing
//! termination triggers (window close, application exit) at most one ever
//! holds the handle — the other sees an empty slot and does nothing.

use vstd::prelude::*;
use crate::supervisor::{spec_planned_port, StartupPlan};

verus! {

/// Ownership token for the spawned child process. Exactly one live instance
/// per run; it is neither copied nor cloned, and whoever takes it out of the
/// lifecycle state is the one that kills the process.
pub struct ChildHandle {
    pub pid: u32,
}

/// The two fields every later operation consults: the active port, and the
/// child handle when this run spawned its own backend. `process` stays `None`
/// on the reuse branch, where an externally started backend was adopted.
pub struct LifecycleState {
    pub port: Option<u16>,
    pub process: Option<ChildHandle>,
}

/// Take-and-clear, as a value: the handle comes out and the slot empties.
pub open spec fn spec_take(s: LifecycleState) -> (LifecycleState, Option<ChildHandle>) {
    (LifecycleState { port: s.port, process: None }, s.process)
}

impl LifecycleState {
    /// The state before setup: no port chosen, no child spawned.
    pub fn new() -> (s: Self)
        ensures
            s.port is None,
            s.process is None,
    {
        LifecycleState { port: None, process: None }
    }

    /// Record the outcome of the startup sequence, once. After this the port
    /// stays set for the remainder of the run.
    pub fn install(&mut self, port: u16, child: Option<ChildHandle>)
        requires
            old(self).port is None,
            old(self).process is None,
        ensures
            final(self).port == Some(port),
            final(self).process == child,
    {
        self.port = Some(port);
        self.process = child;
    }

    /// The synchronized read used by any operation that must address the
    /// backend. `None` only before setup completed.
    pub fn active_port(&self) -> (r: Option<u16>)
        ensures
            r == self.port,
    {
        self.port
    }

    /// Record the startup outcome, once. A handle is installed only on the
    /// spawn branch: a backend reused from outside is never owned, so no exit
    /// path can ever kill it.
    pub fn install_plan(&mut self, plan: &StartupPlan, child: Option<ChildHandle>)
        requires
            old(self).port is None,
            old(self).process is None,
            plan matches StartupPlan::ReuseExisting { .. } ==> child is None,
        ensures
            final(self).port == Some(spec_planned_port(*plan)),
            final(self).process == child,
            plan matches StartupPlan::ReuseExisting { .. } ==> final(self).process is None,
    {
        let port = crate::supervisor::planned_port(plan);
        self.install(port, child);
    }

    /// Take the child handle out, leaving the slot empty. The second of two
    /// racing termination triggers gets `None` and no-ops.
    pub fn take_process(&mut self) -> (r: Option<ChildHandle>)
        ensures
            (*final(self), r) == spec_take(*old(self)),
            final(self).process is None,
            final(self).port == old(self).port,
            r == old(self).process,
    {
        self.process.take()
    }
}

/// Termination is idempotent: once the handle was taken the slot is empty, so
/// a second take yields no handle — the same child is never killed twice.
pub proof fn lemma_take_idempotent(s: LifecycleState)
    ensures
        spec_take(spec_take(s).0).1 is None,
{
}

} // verus!
