//! The process-spawning capability, and mocks of it.
//!
//! Spawning is a capability injected into the monitor: the real
//! implementation forks an operating-system process; the mocks here
//! simulate success, refusal, output and termination without touching
//! the system, so that the whole supervision core can be exercised —
//! and verified — against them.

use vstd::prelude::*;
use crate::descriptor::CommandDescriptor;
use crate::error::{Error, ErrorKind};
use crate::stream::{ByteSource, MockStream};

verus! {

/// A freshly spawned child: its output streams, present exactly when
/// output forwarding was requested, and the capability to wait for
/// its exit.
pub struct SpawnedProcess<O, E, W> {
    pub stdout: Option<O>,
    pub stderr: Option<E>,
    pub waiter: W,
}

/// The capability to wait for a spawned child's termination.
pub trait ExitWaiter: Sized {
    /// The termination outcome this waiter is bound to report, where
    /// the implementation fixes one in advance (a mock child); the
    /// default, `None`, where the outcome is the real child's to
    /// decide.
    open spec fn outcome(&self) -> Option<bool> {
        None
    }

    /// Blocks until the child exits and reports whether the exit was
    /// clean.  A failure of the wait primitive itself is a
    /// `WaitFailed` error.
    fn wait(self) -> (r: Result<bool, Error>)
        ensures
            self.outcome() matches Some(c) ==> r == Ok::<bool, Error>(c),
            r matches Err(e) ==> e.kind == ErrorKind::WaitFailed,
    ;
}

/// The capability to start the child process that a command
/// descriptor describes.
pub trait ProcessSpawner: Sized {
    type Stdout;

    type Stderr;

    type Waiter: ExitWaiter;

    /// Whether every spawn from this state on is sure to succeed.
    /// The default promises nothing, as a real operating system can
    /// promise nothing.
    open spec fn spawn_ok(&self) -> bool {
        false
    }

    /// Whether the next spawn is sure to fail.
    open spec fn spawn_fails(&self) -> bool {
        false
    }

    /// The message of the refusal the next spawn is sure to return;
    /// meaningful only where `spawn_fails()` holds, which the default
    /// never does.
    open spec fn refusal(&self) -> Seq<char> {
        Seq::empty()
    }

    /// Starts a child process.  On success the handle carries output
    /// streams exactly when the descriptor asks for forwarding; a
    /// refusal of the operating system is a `SpawnFailed` error, and
    /// a refusal fixed in advance comes back as a bare error carrying
    /// exactly the fixed message.
    fn spawn(&mut self, descriptor: &CommandDescriptor) -> (r: Result<
        SpawnedProcess<Self::Stdout, Self::Stderr, Self::Waiter>,
        Error,
    >)
        ensures
            old(self).spawn_ok() ==> r is Ok && final(self).spawn_ok(),
            old(self).spawn_fails() ==> r is Err,
            (r matches Ok(p) ==> (p.stdout is Some <==> descriptor@.forward_output) && (
            p.stderr is Some <==> descriptor@.forward_output)),
            r matches Err(e) ==> e.kind == ErrorKind::SpawnFailed && (old(self).spawn_fails()
                ==> e.message@ == old(self).refusal() && e.cause is None && e.backtrace is None),
    ;
}

/// A waiter bound in advance: it reports a fixed outcome, or fails
/// like a broken wait primitive.
pub struct MockWaiter {
    pub clean: bool,
    pub fail_message: Option<String>,
}

impl ExitWaiter for MockWaiter {
    open spec fn outcome(&self) -> Option<bool> {
        if self.fail_message is Some {
            None
        } else {
            Some(self.clean)
        }
    }

    fn wait(self) -> (r: Result<bool, Error>)
        ensures
            (self.fail_message matches Some(m) ==> r matches Err(e) && e.message@ == m@),
    {
        match self.fail_message {
            Some(m) => Err(Error::new(ErrorKind::WaitFailed, m)),
            None => Ok(self.clean),
        }
    }
}

/// A spawner that simulates children: it either refuses every spawn
/// with a fixed message, or hands out a child with fixed output
/// streams and a fixed termination outcome.
pub struct MockSpawner {
    pub fail_message: Option<String>,
    pub clean_exit: bool,
    pub stdout_data: Vec<u8>,
    pub stderr_data: Vec<u8>,
    pub wait_fail_message: Option<String>,
}

impl MockSpawner {
    /// A spawner whose children carry the given output and exit with
    /// the given outcome.
    pub fn succeeding(clean_exit: bool, stdout_data: Vec<u8>, stderr_data: Vec<u8>) -> (s:
        MockSpawner)
        ensures
            s.spawn_ok(),
            !s.spawn_fails(),
            s.clean_exit == clean_exit,
            s.stdout_data@ == stdout_data@,
            s.stderr_data@ == stderr_data@,
            s.wait_fail_message is None,
    {
        MockSpawner {
            fail_message: None,
            clean_exit,
            stdout_data,
            stderr_data,
            wait_fail_message: None,
        }
    }

    /// A spawner that refuses every spawn with the given message.
    pub fn failing(message: String) -> (s: MockSpawner)
        ensures
            s.spawn_fails(),
            !s.spawn_ok(),
            s.fail_message matches Some(m) && m@ == message@,
    {
        MockSpawner {
            fail_message: Some(message),
            clean_exit: false,
            stdout_data: Vec::new(),
            stderr_data: Vec::new(),
            wait_fail_message: None,
        }
    }

    /// A spawner whose children spawn, but whose wait primitive fails
    /// with the given message.
    pub fn wait_failing(message: String) -> (s: MockSpawner)
        ensures
            s.spawn_ok(),
            !s.spawn_fails(),
            s.wait_fail_message matches Some(m) && m@ == message@,
    {
        MockSpawner {
            fail_message: None,
            clean_exit: false,
            stdout_data: Vec::new(),
            stderr_data: Vec::new(),
            wait_fail_message: Some(message),
        }
    }
}

impl ProcessSpawner for MockSpawner {
    type Stdout = MockStream;

    type Stderr = MockStream;

    type Waiter = MockWaiter;

    open spec fn spawn_ok(&self) -> bool {
        self.fail_message is None
    }

    open spec fn spawn_fails(&self) -> bool {
        self.fail_message is Some
    }

    open spec fn refusal(&self) -> Seq<char> {
        match self.fail_message {
            Some(m) => m@,
            None => Seq::empty(),
        }
    }

    fn spawn(&mut self, descriptor: &CommandDescriptor) -> (r: Result<
        SpawnedProcess<MockStream, MockStream, MockWaiter>,
        Error,
    >)
        ensures
            *final(self) == *old(self),
            (old(self).fail_message matches Some(m) ==> r matches Err(e) && e.message@ == m@),
            (old(self).fail_message is None ==> {
                &&& r matches Ok(p)
                &&& p.waiter.outcome() == if old(self).wait_fail_message is Some {
                    None::<bool>
                } else {
                    Some(old(self).clean_exit)
                }
                &&& descriptor@.forward_output ==> (p.stdout matches Some(o) && o.remaining()
                    == old(self).stdout_data@)
                &&& descriptor@.forward_output ==> (p.stderr matches Some(o) && o.remaining()
                    == old(self).stderr_data@)
            }),
    {
        match &self.fail_message {
            Some(m) => Err(Error::new(ErrorKind::SpawnFailed, m.clone())),
            None => {
                let (stdout, stderr) = if descriptor.forward_output() {
                    (
                        Some(MockStream::new(self.stdout_data.clone())),
                        Some(MockStream::new(self.stderr_data.clone())),
                    )
                } else {
                    (None, None)
                };
                Ok(
                    SpawnedProcess {
                        stdout,
                        stderr,
                        waiter: MockWaiter {
                            clean: self.clean_exit,
                            fail_message: self.wait_fail_message.clone(),
                        },
                    },
                )
            },
        }
    }
}

} // verus!
