//! The startup plan, the child's command line, and the drain protocol for its
//! output stream.

use vstd::prelude::*;
use vstd::string::StringExecFns;
use crate::digits::{spec_dec, u64_to_dec_string};
use crate::health::HealthStatus;

verus! {

/// The port checked first: reused when a compatible backend already listens
/// there, as a development convenience.
pub const WELL_KNOWN_PORT: u16 = 8000;

/// How a run obtains its backend: adopt one that already answers on the
/// well-known port, or spawn its own on a fresh ephemeral port.
#[derive(Clone, Copy, PartialEq, Eq, Structural, Debug)]
pub enum StartupPlan {
    ReuseExisting { port: u16 },
    SpawnNew { port: u16 },
}

/// Decide the startup branch from the probe of the well-known port. A child
/// is spawned only when that probe found no compatible backend.
pub fn plan_startup(well_known: &HealthStatus, ephemeral_port: u16) -> (p: StartupPlan)
    ensures
        well_known is Healthy ==> p == (StartupPlan::ReuseExisting { port: WELL_KNOWN_PORT }),
        !(well_known is Healthy) ==> p == (StartupPlan::SpawnNew { port: ephemeral_port }),
{
    match well_known {
        HealthStatus::Healthy { .. } => StartupPlan::ReuseExisting { port: WELL_KNOWN_PORT },
        _ => StartupPlan::SpawnNew { port: ephemeral_port },
    }
}

/// The port of a plan: the port every later probe is aimed at.
pub open spec fn spec_planned_port(p: StartupPlan) -> u16 {
    match p {
        StartupPlan::ReuseExisting { port } => port,
        StartupPlan::SpawnNew { port } => port,
    }
}

pub fn planned_port(p: &StartupPlan) -> (port: u16)
    ensures
        port == spec_planned_port(*p),
{
    match p {
        StartupPlan::ReuseExisting { port } => *port,
        StartupPlan::SpawnNew { port } => *port,
    }
}

/// The command-line arguments the backend executable is launched with.
pub fn spawn_args(port: u16) -> (args: Vec<String>)
    ensures
        args@.len() == 2,
        args@[0]@ == "--port"@,
        args@[1]@ == spec_dec(port as nat),
{
    let mut args: Vec<String> = Vec::new();
    args.push(String::from_str("--port"));
    args.push(u64_to_dec_string(port as u64));
    args
}

/// One message from the child's output stream, reduced to plain values.
pub enum ChildEvent {
    /// A line of the child's standard output.
    StdoutLine { bytes: Vec<u8> },
    /// A line of the child's standard error.
    StderrLine { bytes: Vec<u8> },
    /// A runtime error reported by the spawning layer.
    RuntimeError { message: String },
    /// The child terminated, with its exit code when one was available.
    Terminated { code: Option<i32> },
    /// A message of a kind the drain loop does not interpret.
    Other,
    /// The stream closed without a termination message.
    StreamClosed,
}

/// What the drain loop does after one event.
#[derive(Clone, Copy, PartialEq, Eq, Structural, Debug)]
pub enum DrainDirective {
    /// Keep consuming: the child is still running and its pipes must not fill.
    KeepDraining,
    /// The child is gone or its stream is closed: the drain loop ends.
    Stop,
}

/// The drain protocol: consume every event for the child's whole lifetime and
/// stop exactly on termination or on the stream closing.
pub fn drain_step(event: &ChildEvent) -> (d: DrainDirective)
    ensures
        (d is Stop) == (event is Terminated || event is StreamClosed),
{
    match event {
        ChildEvent::Terminated { .. } => DrainDirective::Stop,
        ChildEvent::StreamClosed => DrainDirective::Stop,
        _ => DrainDirective::KeepDraining,
    }
}

} // verus!
