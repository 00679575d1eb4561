//! The per-cycle decisions of one ping loop. A loop is a two-state machine:
//! it stays Active while the shared running flag holds, and Stopped is
//! terminal. Each Active cycle draws a random delay within the target's
//! bounds and logs it; after the surrounding program has slept and issued the
//! HTTP GET, the cycle's outcome is logged. A transport failure is local to
//! the cycle: it is logged and the loop goes on.

use rand::Rng;
use vstd::prelude::*;
use crate::logbuf::trimmed;
use crate::msg::{failure_message, failure_message_spec, sleep_message, sleep_message_spec,
    success_message, success_message_spec};
use crate::state::ServiceState;
use crate::target::Target;

verus! {

/// What one HTTP GET of a ping cycle came to: a response with its status
/// code, or a transport-level failure with its reason.
#[derive(Debug)]
pub enum PingOutcome {
    Response { status: u16 },
    Failure { reason: String },
}

/// Spec-level value of a [`PingOutcome`].
pub enum PingOutcomeV {
    Response { status: u16 },
    Failure { reason: Seq<char> },
}

impl View for PingOutcome {
    type V = PingOutcomeV;

    open spec fn view(&self) -> PingOutcomeV {
        match self {
            PingOutcome::Response { status } => PingOutcomeV::Response { status: *status },
            PingOutcome::Failure { reason } => PingOutcomeV::Failure { reason: reason@ },
        }
    }
}

/// The log message for one cycle's outcome.
pub open spec fn outcome_message_spec(url: Seq<char>, outcome: PingOutcomeV) -> Seq<char> {
    match outcome {
        PingOutcomeV::Response { status } => success_message_spec(url, status),
        PingOutcomeV::Failure { reason } => failure_message_spec(url, reason),
    }
}

/// Relies on rand's `Rng::gen_range` over an inclusive integer range: it
/// panics only on an empty range, and otherwise returns a uniformly drawn
/// value within the bounds. Nothing is assumed about which value comes back
/// beyond the bounds themselves.
#[verifier::external_body]
fn draw_delay(min_delay: u64, max_delay: u64) -> (r: u64)
    requires
        min_delay <= max_delay,
    ensures
        min_delay <= r <= max_delay,
{
    rand::thread_rng().gen_range(min_delay..=max_delay)
}

impl ServiceState {
    /// One poll of the loop's state machine, plus the pre-sleep work of an
    /// Active cycle. When the running flag is down, returns `None` and
    /// changes nothing: the loop transitions to Stopped. Otherwise draws the
    /// cycle's delay within the target's bounds (exactly the shared bound
    /// when the range is a single point), logs the sleep about to occur, and
    /// returns the delay in minutes.
    pub fn begin_cycle(&mut self, target: &Target) -> (r: Option<u64>)
        requires
            old(self).wf(),
            target@.wf(),
        ensures
            final(self).wf(),
            !old(self)@.running ==> r is None && final(self)@ == old(self)@,
            old(self)@.running ==> ({
                &&& r matches Some(d) && target.min_delay <= d <= target.max_delay
                    && final(self)@.logs == trimmed(
                    old(self)@.logs.push(sleep_message_spec(target@.url, d)),
                )
                &&& final(self)@.targets == old(self)@.targets
                &&& final(self)@.running == old(self)@.running
                &&& final(self)@.loops == old(self)@.loops
            }),
            old(self)@.running && target.min_delay == target.max_delay ==> r == Some(
                target.min_delay,
            ),
    {
        if !self.is_running() {
            return None;
        }
        let delay = draw_delay(target.min_delay, target.max_delay);
        let message = sleep_message(target.url.as_str(), delay);
        self.append_log(message);
        Some(delay)
    }

    /// The post-request work of an Active cycle: logs the response status or
    /// the transport failure. Nothing else changes, and no outcome ends the
    /// loop; in particular a failure is logged the same way a response is.
    pub fn record_ping_result(&mut self, target: &Target, outcome: PingOutcome)
        requires
            old(self).wf(),
        ensures
            final(self).wf(),
            final(self)@.logs == trimmed(
                old(self)@.logs.push(outcome_message_spec(target@.url, outcome@)),
            ),
            final(self)@.targets == old(self)@.targets,
            final(self)@.running == old(self)@.running,
            final(self)@.loops == old(self)@.loops,
    {
        let message = match outcome {
            PingOutcome::Response { status } => success_message(target.url.as_str(), status),
            PingOutcome::Failure { reason } => failure_message(
                target.url.as_str(),
                reason.as_str(),
            ),
        };
        self.append_log(message);
    }
}

} // verus!
