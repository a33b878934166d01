//! The termination signal channel: one producer, one consumer, one
//! outcome per instance.
//!
//! A fresh channel is made for every start cycle.  Its contracts make
//! the single-use discipline a verified fact: a slot that already
//! carries an outcome takes no second one, and nothing can be received
//! before an outcome was sent.

use vstd::prelude::*;

verus! {

/// Carries the one termination outcome of a start cycle from the
/// monitor's termination watcher to the supervision loop.
pub struct TerminationChannel {
    outcome: Option<bool>,
    delivered: bool,
    sends: Ghost<nat>,
}

impl TerminationChannel {
    /// The outcome sent so far, if any.
    pub closed spec fn sent(&self) -> Option<bool> {
        self.outcome
    }

    /// Whether the consumer has received the outcome.
    pub closed spec fn delivered(&self) -> bool {
        self.delivered
    }

    /// How many outcomes were ever sent through this channel.
    pub closed spec fn send_count(&self) -> nat {
        self.sends@
    }

    /// A channel accounts for each send, and delivers only what was
    /// sent.
    pub open spec fn wf(&self) -> bool {
        &&& self.send_count() == if self.sent() is Some {
            1nat
        } else {
            0nat
        }
        &&& self.delivered() ==> self.sent() is Some
    }

    /// A fresh channel: nothing sent, nothing delivered.
    pub fn new() -> (c: TerminationChannel)
        ensures
            c.sent() is None,
            !c.delivered(),
            c.send_count() == 0,
            c.wf(),
    {
        TerminationChannel { outcome: None, delivered: false, sends: Ghost(0nat) }
    }

    /// Sends the cycle's one termination outcome.  A channel that
    /// already carries an outcome takes no second one.
    pub fn send(&mut self, clean: bool)
        requires
            old(self).sent() is None,
        ensures
            final(self).sent() == Some(clean),
            final(self).delivered() == old(self).delivered(),
            final(self).send_count() == old(self).send_count() + 1,
            old(self).wf() ==> final(self).wf(),
    {
        self.outcome = Some(clean);
        proof {
            self.sends@ = self.sends@ + 1;
        }
    }

    /// Receives the cycle's one termination outcome: exactly the one
    /// that was sent.
    pub fn receive(&mut self) -> (clean: bool)
        requires
            old(self).sent() is Some,
            !old(self).delivered(),
        ensures
            final(self).delivered(),
            old(self).sent() == Some(clean),
            final(self).sent() == old(self).sent(),
            final(self).send_count() == old(self).send_count(),
            old(self).wf() ==> final(self).wf(),
    {
        self.delivered = true;
        match self.outcome {
            Some(c) => c,
            None => false,
        }
    }
}

/// Law: per channel instance — and so per start cycle, which uses a
/// fresh one — at most one termination outcome is ever sent, and once
/// the supervision loop has received an outcome, exactly one was sent:
/// never zero, never more than one.
pub proof fn lemma_one_outcome_per_cycle(c: TerminationChannel)
    requires
        c.wf(),
    ensures
        c.send_count() <= 1,
        c.delivered() ==> c.send_count() == 1,
{
}

} // verus!
