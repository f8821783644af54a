//! The liveness prober: how one connection attempt is read, and how long to
//! wait before the next.
//!
//! The prober never touches the network. Its caller attempts a connection to
//! the device, bounded by the prober's timeout, and reports what came of it
//! and how long it took as a [`ProbeAttempt`]. The prober classifies the
//! attempt and says what a polling loop does next.

use vstd::prelude::*;
use crate::span::Span;

verus! {

/// What became of one connection attempt.
#[derive(Clone, Copy, Debug, PartialEq, Eq, Structural)]
pub enum ConnectOutcome {
    /// The connection was established.
    Connected,
    /// The attempt ended in an error: refused, unreachable, unresolvable.
    Failed,
    /// The attempt was abandoned when the timeout ran out.
    TimedOut,
}

/// One connection attempt: its outcome and the time it took.
#[derive(Clone, Copy, Debug, PartialEq, Eq, Structural)]
pub struct ProbeAttempt {
    pub outcome: ConnectOutcome,
    pub elapsed: Span,
}

/// A connection attempt with its time in nanoseconds.
pub struct AttemptView {
    pub outcome: ConnectOutcome,
    pub elapsed: nat,
}

impl View for ProbeAttempt {
    type V = AttemptView;

    open spec fn view(&self) -> AttemptView {
        AttemptView { outcome: self.outcome, elapsed: self.elapsed@ }
    }
}

/// Why an attempt does not count as reachable.
#[derive(Clone, Copy, Debug, PartialEq, Eq, Structural)]
pub enum ProbeError {
    /// The attempt did not complete before the timeout.
    TimedOut,
    /// The attempt ended in an error.
    Failed,
}

/// What a polling loop does after one attempt.
#[derive(Clone, Copy, Debug, PartialEq, Eq, Structural)]
pub enum PollStep {
    /// The device is in the awaited state: stop polling.
    Done,
    /// Pause for this long, then attempt again.
    Sleep(Span),
    /// Attempt again at once: the attempt used up the whole interval.
    Retry,
}

/// A polling step with its pause in nanoseconds.
pub enum PollStepView {
    Done,
    Sleep(nat),
    Retry,
}

impl View for PollStep {
    type V = PollStepView;

    open spec fn view(&self) -> PollStepView {
        match self {
            PollStep::Done => PollStepView::Done,
            PollStep::Sleep(pause) => PollStepView::Sleep(pause@),
            PollStep::Retry => PollStepView::Retry,
        }
    }
}

/// How an attempt is classified under a timeout: reachable only if the
/// connection was established in strictly less than the timeout.
pub open spec fn classify(timeout: nat, attempt: AttemptView) -> Result<(), ProbeError> {
    match attempt.outcome {
        ConnectOutcome::Connected => if attempt.elapsed < timeout {
            Ok(())
        } else {
            Err(ProbeError::TimedOut)
        },
        ConnectOutcome::TimedOut => Err(ProbeError::TimedOut),
        ConnectOutcome::Failed => Err(ProbeError::Failed),
    }
}

/// Whether an attempt shows the device reachable.
pub open spec fn reachable(timeout: nat, attempt: AttemptView) -> bool {
    attempt.outcome == ConnectOutcome::Connected && attempt.elapsed < timeout
}

/// The pause after an attempt that took `elapsed`: what is left of the
/// timeout.
pub open spec fn pause_after(timeout: nat, elapsed: nat) -> nat {
    if elapsed < timeout {
        (timeout - elapsed) as nat
    } else {
        0
    }
}

/// What polling for the state `expect` does after an attempt.
pub open spec fn poll_step(timeout: nat, expect: bool, attempt: AttemptView) -> PollStepView {
    if reachable(timeout, attempt) == expect {
        PollStepView::Done
    } else if attempt.elapsed < timeout {
        PollStepView::Sleep(pause_after(timeout, attempt.elapsed))
    } else {
        PollStepView::Retry
    }
}

/// A connection that takes exactly the timeout counts as unreachable, and
/// so does every longer one: the timeout is strict.
pub proof fn law_timeout_is_strict(timeout: nat, attempt: AttemptView)
    requires
        attempt.elapsed >= timeout,
    ensures
        !reachable(timeout, attempt),
        classify(timeout, attempt) is Err,
{
}

/// An attempt is reachable exactly when it is classified without an error,
/// and that is when the connection was established before the timeout.
pub proof fn law_reachable_iff_connected_in_time(timeout: nat, attempt: AttemptView)
    ensures
        reachable(timeout, attempt) <==> classify(timeout, attempt) is Ok,
        reachable(timeout, attempt) <==> attempt.outcome == ConnectOutcome::Connected
            && attempt.elapsed < timeout,
{
}

/// The reachability target and the bound on each attempt.
#[derive(Debug)]
pub struct TcpProber {
    addr: String,
    timeout: Span,
}

/// A prober as plain values: the target's text and the timeout in
/// nanoseconds.
pub struct ProberView {
    pub addr: Seq<char>,
    pub timeout: nat,
}

impl View for TcpProber {
    type V = ProberView;

    closed spec fn view(&self) -> ProberView {
        ProberView { addr: self.addr@, timeout: self.timeout@ }
    }
}

impl TcpProber {
    /// A prober for the target `addr` that bounds each attempt by `timeout`.
    pub fn new(addr: String, timeout: Span) -> (r: Self)
        ensures
            r@.addr == addr@,
            r@.timeout == timeout@,
    {
        Self { addr, timeout }
    }

    /// The target, as the text that a connection is made to.
    pub fn addr(&self) -> (r: &str)
        ensures
            r@ == self@.addr,
    {
        self.addr.as_str()
    }

    /// The bound on each attempt, which is also the polling interval.
    pub fn timeout(&self) -> (r: Span)
        ensures
            r@ == self@.timeout,
    {
        self.timeout
    }

    /// Reads an attempt: `Ok` where the connection was established before
    /// the timeout, else the reason why the device counts as unreachable.
    pub fn try_connect(&self, attempt: &ProbeAttempt) -> (r: Result<(), ProbeError>)
        ensures
            r == classify(self@.timeout, attempt@),
    {
        match attempt.outcome {
            ConnectOutcome::Connected => if attempt.elapsed.shorter_than(&self.timeout) {
                Ok(())
            } else {
                Err(ProbeError::TimedOut)
            },
            ConnectOutcome::TimedOut => Err(ProbeError::TimedOut),
            ConnectOutcome::Failed => Err(ProbeError::Failed),
        }
    }

    /// Classifies an attempt: `true` for reachable, `false` for everything
    /// else. Every failure collapses to `false`.
    pub fn probe(&self, attempt: &ProbeAttempt) -> (alive: bool)
        ensures
            alive == reachable(self@.timeout, attempt@),
            alive == (classify(self@.timeout, attempt@) is Ok),
    {
        self.try_connect(attempt).is_ok()
    }

    /// What polling for the state `expect` does after `attempt`: stop when
    /// the device is in that state, else pause for what is left of the
    /// timeout, so that attempts start at least one timeout apart.
    pub fn probe_until(&self, expect: bool, attempt: &ProbeAttempt) -> (step: PollStep)
        ensures
            step@ == poll_step(self@.timeout, expect, attempt@),
            step is Done <==> reachable(self@.timeout, attempt@) == expect,
            step matches PollStep::Sleep(pause) ==> attempt@.elapsed + pause@ == self@.timeout,
            step is Retry ==> attempt@.elapsed >= self@.timeout,
    {
        if self.probe(attempt) == expect {
            PollStep::Done
        } else if attempt.elapsed.shorter_than(&self.timeout) {
            PollStep::Sleep(self.timeout.saturating_sub(&attempt.elapsed))
        } else {
            PollStep::Retry
        }
    }

    /// What polling for the device to come on does after `attempt`.
    pub fn probe_until_on(&self, attempt: &ProbeAttempt) -> (step: PollStep)
        ensures
            step@ == poll_step(self@.timeout, true, attempt@),
            step is Done <==> reachable(self@.timeout, attempt@),
            step matches PollStep::Sleep(pause) ==> attempt@.elapsed + pause@ == self@.timeout,
            step is Retry ==> attempt@.elapsed >= self@.timeout,
    {
        self.probe_until(true, attempt)
    }

    /// What polling for the device to go off does after `attempt`.
    pub fn probe_until_off(&self, attempt: &ProbeAttempt) -> (step: PollStep)
        ensures
            step@ == poll_step(self@.timeout, false, attempt@),
            step is Done <==> !reachable(self@.timeout, attempt@),
            step matches PollStep::Sleep(pause) ==> attempt@.elapsed + pause@ == self@.timeout,
            step is Retry ==> attempt@.elapsed >= self@.timeout,
    {
        self.probe_until(false, attempt)
    }
}

} // verus!
