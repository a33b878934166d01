//! Errors with an explicit chain of causes.
//!
//! A start-up failure must explain itself: the operator sees the
//! outermost message on an `error:` line, every deeper cause on a
//! `caused by:` line, and a captured backtrace, if there is one, last.

use vstd::prelude::*;
use vstd::string::StringExecFns;

verus! {

/// The classes of failure the supervision core distinguishes.
#[derive(Clone, Copy, PartialEq, Eq, Structural, Debug)]
pub enum ErrorKind {
    /// A command descriptor was rejected at construction.
    InvalidDescriptor,
    /// The operating system refused to create the child process.
    SpawnFailed,
    /// A start attempt of the process monitor failed.
    StartFailed,
    /// An input/output error interrupted a stream relay.
    StreamCopyFailed,
    /// The wait-for-exit primitive itself failed.
    WaitFailed,
}

/// An error carrying its class, a human-readable message, an optional
/// deeper cause, and an optional backtrace captured where it arose.
#[derive(Debug)]
pub struct Error {
    pub kind: ErrorKind,
    pub message: String,
    pub cause: Option<Box<Error>>,
    pub backtrace: Option<String>,
}

/// The messages along an error's cause chain, outermost first.
pub open spec fn chain_of(e: Error) -> Seq<Seq<char>>
    decreases e,
{
    match e.cause {
        Option::Some(c) => seq![e.message@] + chain_of(*c),
        Option::None => seq![e.message@],
    }
}

impl Error {
    /// An error with no deeper cause.
    pub fn new(kind: ErrorKind, message: String) -> (r: Error)
        ensures
            r.kind == kind,
            r.message@ == message@,
            r.cause is None,
            r.backtrace is None,
            chain_of(r) == seq![message@],
    {
        Error { kind, message, cause: None, backtrace: None }
    }

    /// Wraps a cause in a new error, extending the cause chain by one
    /// outer message.
    pub fn wrapping(kind: ErrorKind, message: String, cause: Error) -> (r: Error)
        ensures
            r.kind == kind,
            r.message@ == message@,
            r.cause matches Some(c) && *c == cause,
            r.backtrace is None,
            chain_of(r) == seq![message@] + chain_of(cause),
    {
        Error { kind, message, cause: Some(Box::new(cause)), backtrace: None }
    }

    /// The same error with a captured backtrace attached.
    pub fn with_backtrace(self, backtrace: String) -> (r: Error)
        ensures
            r.kind == self.kind,
            r.message@ == self.message@,
            r.cause == self.cause,
            r.backtrace matches Some(b) && b@ == backtrace@,
            chain_of(r) == chain_of(self),
    {
        let r = Error { backtrace: Some(backtrace), ..self };
        proof {
            assert(chain_of(r) =~= chain_of(self)) by {
                lemma_chain_ignores_backtrace(r, self);
            }
        }
        r
    }

    /// The messages of this error and of every cause below it,
    /// outermost first.
    pub fn chain(&self) -> (r: Vec<String>)
        ensures
            r@.len() == chain_of(*self).len(),
            forall|i: int| 0 <= i < r@.len() ==> r@[i]@ == chain_of(*self)[i],
        decreases *self,
    {
        let mut v: Vec<String> = Vec::new();
        v.push(self.message.clone());
        match &self.cause {
            Option::Some(c) => {
                let mut rest = c.chain();
                v.append(&mut rest);
            },
            Option::None => {},
        }
        v
    }

    /// The operator-facing report: the outermost message on an
    /// `error:` line, each deeper cause on a `caused by:` line, and
    /// the backtrace, if one was captured, on a final `backtrace:`
    /// line.
    pub fn report_lines(&self) -> (r: Vec<String>)
        ensures
            r@.len() == chain_of(*self).len() + if self.backtrace is Some { 1int } else { 0int },
            r@[0]@ == "error: "@ + chain_of(*self)[0],
            forall|i: int| 1 <= i < chain_of(*self).len() ==> r@[i]@ == "caused by: "@ + chain_of(*self)[i],
            self.backtrace matches Some(b) ==> r@.last()@ == "backtrace: "@ + b@,
    {
        let msgs = self.chain();
        let mut r: Vec<String> = Vec::new();
        let mut i: usize = 0;
        while i < msgs.len()
            invariant
                i <= msgs.len(),
                r@.len() == i,
                msgs@.len() == chain_of(*self).len(),
                forall|j: int| 0 <= j < msgs@.len() ==> msgs@[j]@ == chain_of(*self)[j],
                i >= 1 ==> r@[0]@ == "error: "@ + chain_of(*self)[0],
                forall|j: int| 1 <= j < i ==> r@[j]@ == "caused by: "@ + chain_of(*self)[j],
            decreases msgs.len() - i,
        {
            let prefix: &str = if i == 0 { "error: " } else { "caused by: " };
            let mut line = String::from_str(prefix);
            line.append(msgs[i].as_str());
            r.push(line);
            i = i + 1;
        }
        match &self.backtrace {
            Option::Some(b) => {
                let mut line = String::from_str("backtrace: ");
                line.append(b.as_str());
                r.push(line);
            },
            Option::None => {},
        }
        r
    }
}

/// The cause chain reads only the message and the cause of each link:
/// two errors that agree on those agree on their chains.
proof fn lemma_chain_ignores_backtrace(a: Error, b: Error)
    requires
        a.message == b.message,
        a.cause == b.cause,
    ensures
        chain_of(a) == chain_of(b),
    decreases a,
{
}

} // verus!
