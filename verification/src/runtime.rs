//! The invocation loop, as a verified state machine.
//!
//! One cycle is fetch, decode, invoke, encode, publish.  The outside work of
//! a cycle — the network calls and the handler itself — happens with the
//! embedding application; this module decides everything else: what gets
//! published after an invocation, and whether the loop polls on, finishes,
//! or terminates with the control-plane failure.

use vstd::prelude::*;

use crate::error::Error;
use crate::error::LambdaError;
use crate::lambda_api::PublishErrorRequest;
use crate::response::HeaderMode;
use crate::response::Response;
use crate::response::create_plain_text;
use crate::response::spec_create_plain_text;

verus! {

/// The result of running the loop: nothing, or the control-plane failure
/// that terminated it.
pub type RuntimeResult = Result<(), Error>;

// ---------------------------------------------------------------------------
// What one invocation publishes
// ---------------------------------------------------------------------------
/// The publish operation owed to the control plane after one invocation.
pub enum PublishAction {
    /// The handler succeeded: post its serialized output.
    Respond { request_id: String, payload: String },
    /// The handler failed: post the error report.
    ReportError { request_id: String, report: PublishErrorRequest },
}

/// Decides what to publish for one invocation: the serialized output of a
/// successful handler, or a report built from the failure's type tag and
/// message.  A handler failure never escapes the cycle any other way.
pub fn plan_publication(request_id: String, outcome: Result<String, (String, String)>) -> (action:
    PublishAction)
    ensures
        outcome matches Ok(payload) ==> action == (PublishAction::Respond { request_id, payload }),
        outcome matches Err(failure) ==> action == (PublishAction::ReportError {
            request_id,
            report: PublishErrorRequest { error_type: failure.0, error_message: failure.1 },
        }),
{
    match outcome {
        Ok(payload) => PublishAction::Respond { request_id, payload },
        Err((error_type, error_message)) => PublishAction::ReportError {
            request_id,
            report: PublishErrorRequest { error_type, error_message },
        },
    }
}

// ---------------------------------------------------------------------------
// The loop itself
// ---------------------------------------------------------------------------
/// Where the loop stands.
pub enum LoopState {
    /// Waiting to run the next cycle.
    Polling,
    /// Done after one cycle, as single-shot mode asks.
    Finished,
    /// Terminated by a control-plane failure, which is carried out.
    Failed(Error),
}

/// The state after one cycle: a control-plane failure terminates the loop,
/// a completed cycle finishes it in single-shot mode and otherwise polls on.
/// Handler-level failures were already published within the cycle and reach
/// this decision as completed cycles.
pub open spec fn spec_after_cycle(single_shot: bool, cycle: Result<(), Error>) -> LoopState {
    match cycle {
        Err(cause) => LoopState::Failed(cause),
        Ok(_) => if single_shot {
            LoopState::Finished
        } else {
            LoopState::Polling
        },
    }
}

/// Law: in single-shot mode the loop never keeps polling after a cycle,
/// whatever its outcome was — exactly one cycle runs.
pub proof fn lemma_single_shot_runs_once(cycle: Result<(), Error>)
    ensures
        !(spec_after_cycle(true, cycle) is Polling),
{
}

/// Law: a control-plane failure terminates the loop and is carried out
/// unchanged, in either mode.
pub proof fn lemma_control_plane_failure_terminates(single_shot: bool, cause: Error)
    ensures
        spec_after_cycle(single_shot, Err(cause)) == LoopState::Failed(cause),
{
}

/// The loop's state machine.  The embedding application runs one cycle's
/// outside work, reports its outcome here, and keeps cycling while the
/// machine polls.
pub struct InvocationLoop {
    /// Whether the loop stops after one cycle; fixed at creation.
    pub single_shot: bool,
    pub state: LoopState,
    /// How many cycles have completed.
    pub completed: u64,
}

impl InvocationLoop {
    /// A fresh loop, ready to poll.
    pub fn new(single_shot: bool) -> (m: InvocationLoop)
        ensures
            m.single_shot == single_shot,
            m.state is Polling,
            m.completed == 0,
    {
        InvocationLoop { single_shot, state: LoopState::Polling, completed: 0 }
    }

    /// Whether another cycle may run.
    pub fn should_continue(&self) -> (r: bool)
        ensures
            r == (self.state is Polling),
    {
        match self.state {
            LoopState::Polling => true,
            LoopState::Finished => false,
            LoopState::Failed(_) => false,
        }
    }

    /// Accounts one finished cycle and moves to the state
    /// [`spec_after_cycle`] names.
    pub fn on_cycle(&mut self, cycle: Result<(), Error>)
        requires
            old(self).state is Polling,
            old(self).completed < u64::MAX,
        ensures
            final(self).single_shot == old(self).single_shot,
            final(self).completed == old(self).completed + 1,
            final(self).state == spec_after_cycle(old(self).single_shot, cycle),
    {
        self.completed = self.completed + 1;
        self.state = match cycle {
            Err(cause) => LoopState::Failed(cause),
            Ok(_) => if self.single_shot {
                LoopState::Finished
            } else {
                LoopState::Polling
            },
        };
    }

    /// Hands out the loop's result once it stopped: the control-plane
    /// failure if one terminated it, and success otherwise.
    pub fn into_result(self) -> (r: Result<(), Error>)
        requires
            !(self.state is Polling),
        ensures
            self.state is Finished ==> r is Ok,
            self.state matches LoopState::Failed(cause) ==> r == Err::<(), Error>(cause),
    {
        match self.state {
            LoopState::Polling => Ok(()),
            LoopState::Finished => Ok(()),
            LoopState::Failed(cause) => Err(cause),
        }
    }
}

// ---------------------------------------------------------------------------
// The reply to an event that never reached the handler
// ---------------------------------------------------------------------------
/// The reply for an event whose deserialization failed: a plain-text `400`
/// whose body names the cause after the `Bad Request ` prefix.  The loop
/// publishes it as an ordinary response; it does not terminate.
pub fn bad_request_response(mode: HeaderMode, cause: &LambdaError) -> (r: Response)
    ensures
        r@ == spec_create_plain_text(mode, 400, Some("Bad Request "@ + cause@)),
{
    let mut body = "Bad Request ".to_owned();
    body.append(cause.message());
    create_plain_text(mode, 400, Some(body))
}

} // verus!
