//! The process monitor: owns one command descriptor and one spawner,
//! and starts the child on demand.

use vstd::prelude::*;
use vstd::string::StringExecFns;
use crate::descriptor::CommandDescriptor;
use crate::error::{chain_of, Error, ErrorKind};
use crate::spawner::{ProcessSpawner, SpawnedProcess};

verus! {

/// Supervises the start of one child process.  The descriptor and the
/// spawner are injected at construction and fixed for the monitor's
/// lifetime; the monitor holds no process-specific state between
/// starts, so one monitor serves every cycle of the supervision loop.
pub struct ChildMonitor<S> {
    pub descriptor: CommandDescriptor,
    pub spawner: S,
}

impl<S: ProcessSpawner> ChildMonitor<S> {
    /// A monitor armed with a descriptor and a spawning capability.
    pub fn new(descriptor: CommandDescriptor, spawner: S) -> (m: ChildMonitor<S>)
        ensures
            m.descriptor == descriptor,
            m.spawner == spawner,
    {
        ChildMonitor { descriptor, spawner }
    }

    /// One start attempt.  On success the handle carries the child's
    /// streams exactly when the descriptor asks for forwarding, and
    /// the waiter with which the caller arranges the termination
    /// watch.  A spawn refusal is returned at once — retry is the
    /// supervision loop's business — wrapped as a `StartFailed` error
    /// that names the executable and keeps the refusal as its cause.
    pub fn start(&mut self) -> (r: Result<
        SpawnedProcess<S::Stdout, S::Stderr, S::Waiter>,
        Error,
    >)
        ensures
            final(self).descriptor == old(self).descriptor,
            old(self).spawner.spawn_ok() ==> r is Ok && final(self).spawner.spawn_ok(),
            old(self).spawner.spawn_fails() ==> r is Err,
            (r matches Ok(p) ==> (p.stdout is Some <==> old(self).descriptor@.forward_output) && (
            p.stderr is Some <==> old(self).descriptor@.forward_output)),
            (r matches Err(e) ==> {
                &&& e.kind == ErrorKind::StartFailed
                &&& e.message@ == "unable to start "@ + old(self).descriptor@.executable_path
                &&& e.cause matches Some(c) && c.kind == ErrorKind::SpawnFailed
                &&& e.backtrace is None
                &&& old(self).spawner.spawn_fails() ==> (e.cause matches Some(c) && c.message@
                    == old(self).spawner.refusal() && c.cause is None && c.backtrace is None
                    && chain_of(e) == seq![e.message@, old(self).spawner.refusal()])
            }),
    {
        let spawned = match self.spawner.spawn(&self.descriptor) {
            Ok(p) => p,
            Err(cause) => {
                let mut message = String::from_str("unable to start ");
                message.append(self.descriptor.executable_path().as_str());
                return Err(Error::wrapping(ErrorKind::StartFailed, message, cause));
            },
        };
        if self.descriptor.forward_output() {
            Ok(spawned)
        } else {
            Ok(SpawnedProcess { stdout: None, stderr: None, waiter: spawned.waiter })
        }
    }
}

} // verus!
