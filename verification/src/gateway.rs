//! The connection gateway: three workers, started together and ended together.
//!
//! The gateway decides nothing about prompts or replies. It knows which workers still
//! run. When the first of them returns, for whatever reason, it has the other two
//! cancelled, and the session is over when all three have ended. Nothing is started
//! again: a client that wants to go on opens a new connection.

use vstd::prelude::*;

verus! {

/// How many submissions the submission queue holds, and how many deltas the delta
/// queue holds.
pub const QUEUE_CAPACITY: usize = 100;

/// The workers of a connection.
#[derive(Clone, Copy, Debug, PartialEq, Eq, Structural)]
pub enum Worker {
    Receiver,
    Inference,
    Sender,
}

/// The life of a session.
#[derive(Clone, Copy, Debug, PartialEq, Eq, Structural)]
pub enum Phase {
    /// All three workers run.
    Active,
    /// A worker has returned, and another still runs.
    ShuttingDown,
    /// No worker runs.
    Terminated,
}

/// Which workers of a connection still run.
#[derive(Clone, Copy, Debug, PartialEq, Eq, Structural)]
pub struct Gateway {
    pub receiver: bool,
    pub inference: bool,
    pub sender: bool,
}

/// What the gateway asks for next.
#[derive(Clone, Copy, Debug, PartialEq, Eq, Structural)]
pub enum GatewayAction {
    /// Cancel these two workers, then wait for a worker to end.
    Cancel(Worker, Worker),
    /// Wait for a worker to end.
    Wait,
    /// Let go of the connection.
    Close,
}

impl Worker {
    /// The two other workers.
    pub open spec fn spec_others(self) -> (Worker, Worker) {
        match self {
            Worker::Receiver => (Worker::Inference, Worker::Sender),
            Worker::Inference => (Worker::Sender, Worker::Receiver),
            Worker::Sender => (Worker::Inference, Worker::Receiver),
        }
    }

    #[verifier::when_used_as_spec(spec_others)]
    pub fn others(self) -> (r: (Worker, Worker))
        ensures
            r == self.spec_others(),
    {
        match self {
            Worker::Receiver => (Worker::Inference, Worker::Sender),
            Worker::Inference => (Worker::Sender, Worker::Receiver),
            Worker::Sender => (Worker::Inference, Worker::Receiver),
        }
    }
}

impl Gateway {
    /// Whether `worker` still runs.
    pub open spec fn spec_runs(self, worker: Worker) -> bool {
        match worker {
            Worker::Receiver => self.receiver,
            Worker::Inference => self.inference,
            Worker::Sender => self.sender,
        }
    }

    /// The gateway without `worker`.
    pub open spec fn without(self, worker: Worker) -> Gateway {
        match worker {
            Worker::Receiver => Gateway { receiver: false, ..self },
            Worker::Inference => Gateway { inference: false, ..self },
            Worker::Sender => Gateway { sender: false, ..self },
        }
    }

    pub open spec fn spec_phase(self) -> Phase {
        if self.receiver && self.inference && self.sender {
            Phase::Active
        } else if self.receiver || self.inference || self.sender {
            Phase::ShuttingDown
        } else {
            Phase::Terminated
        }
    }

    /// What the gateway does when it learns that `worker` has ended. The first worker
    /// to end has the two others cancelled. Word of a worker that had ended before
    /// changes nothing.
    pub open spec fn spec_returned(self, worker: Worker) -> (Gateway, GatewayAction) {
        let next = self.without(worker);
        let action = if next.spec_phase() == Phase::Terminated {
            GatewayAction::Close
        } else if self.spec_phase() == Phase::Active {
            GatewayAction::Cancel(worker.spec_others().0, worker.spec_others().1)
        } else {
            GatewayAction::Wait
        };
        (next, action)
    }

    /// The gateway of a connection whose three workers have just been started.
    pub fn new() -> (r: Gateway)
        ensures
            r == (Gateway { receiver: true, inference: true, sender: true }),
            r.spec_phase() == Phase::Active,
    {
        Gateway { receiver: true, inference: true, sender: true }
    }

    #[verifier::when_used_as_spec(spec_runs)]
    pub fn runs(self, worker: Worker) -> (r: bool)
        ensures
            r == self.spec_runs(worker),
    {
        match worker {
            Worker::Receiver => self.receiver,
            Worker::Inference => self.inference,
            Worker::Sender => self.sender,
        }
    }

    #[verifier::when_used_as_spec(spec_phase)]
    pub fn phase(self) -> (r: Phase)
        ensures
            r == self.spec_phase(),
    {
        if self.receiver && self.inference && self.sender {
            Phase::Active
        } else if self.receiver || self.inference || self.sender {
            Phase::ShuttingDown
        } else {
            Phase::Terminated
        }
    }

    /// Takes note that `worker` has ended, and says what to do about it.
    #[verifier::when_used_as_spec(spec_returned)]
    pub fn returned(self, worker: Worker) -> (r: (Gateway, GatewayAction))
        ensures
            r == self.spec_returned(worker),
    {
        let was_active = self.receiver && self.inference && self.sender;
        let next = match worker {
            Worker::Receiver => Gateway {
                receiver: false,
                inference: self.inference,
                sender: self.sender,
            },
            Worker::Inference => Gateway {
                receiver: self.receiver,
                inference: false,
                sender: self.sender,
            },
            Worker::Sender => Gateway {
                receiver: self.receiver,
                inference: self.inference,
                sender: false,
            },
        };
        let action = if !(next.receiver || next.inference || next.sender) {
            GatewayAction::Close
        } else if was_active {
            let (first, second) = worker.others();
            GatewayAction::Cancel(first, second)
        } else {
            GatewayAction::Wait
        };
        (next, action)
    }
}

/// The first worker to end moves the session from `Active` to `ShuttingDown`, and
/// the two that are then cancelled are the two that still run.
pub proof fn lemma_first_return_shuts_down(gateway: Gateway, worker: Worker)
    requires
        gateway.spec_phase() == Phase::Active,
    ensures
        gateway.spec_returned(worker).0.spec_phase() == Phase::ShuttingDown,
        gateway.spec_returned(worker).1 matches GatewayAction::Cancel(a, b) && a != b && a
            != worker && b != worker && gateway.spec_returned(worker).0.spec_runs(a)
            && gateway.spec_returned(worker).0.spec_runs(b),
{
}

/// A session never comes back: no worker runs again once it has ended, so the phase
/// only moves from `Active` towards `Terminated`.
pub proof fn lemma_no_way_back(gateway: Gateway, worker: Worker, other: Worker)
    ensures
        !gateway.spec_returned(worker).0.spec_runs(worker),
        gateway.spec_returned(worker).0.spec_runs(other) ==> gateway.spec_runs(other),
        gateway.spec_phase() == Phase::Terminated ==> gateway.spec_returned(
            worker,
        ).0.spec_phase() == Phase::Terminated,
        gateway.spec_phase() != Phase::Active ==> gateway.spec_returned(worker).0.spec_phase()
            != Phase::Active,
{
}

/// The session is over exactly when each of the three workers has ended, in whatever
/// order, and `Close` is asked for at that moment and not before.
pub proof fn lemma_terminates_when_all_ended(a: Worker, b: Worker, c: Worker)
    requires
        a != b,
        b != c,
        a != c,
    ensures
        ({
            let start = Gateway { receiver: true, inference: true, sender: true };
            let (g1, x1) = start.spec_returned(a);
            let (g2, x2) = g1.spec_returned(b);
            let (g3, x3) = g2.spec_returned(c);
            &&& g1.spec_phase() == Phase::ShuttingDown
            &&& g2.spec_phase() == Phase::ShuttingDown
            &&& g3.spec_phase() == Phase::Terminated
            &&& x1 is Cancel
            &&& x2 == GatewayAction::Wait
            &&& x3 == GatewayAction::Close
        }),
{
}

} // verus!
