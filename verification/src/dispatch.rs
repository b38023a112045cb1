//! The command dispatcher: maps one decoded command to a lifecycle operation
//! and, where one is owed, a response with its delivery policy.
//!
//! Success of a mutating command is acknowledged by silence: the client
//! infers it from a later status query. A failure must not be dropped, so it
//! is retried until delivered or the channel fails fatally — except after a
//! failed shutdown, where an unbounded retry would contradict the intent to
//! terminate, so at most one retry is spent on it.

use vstd::prelude::*;
use crate::lifecycle::OperationError;
use crate::lifecycle::ServiceHandle;
use crate::lifecycle::HandleView;
use crate::lifecycle::ServiceState;
use crate::protocol::ChannelError;
use crate::protocol::Command;
use crate::protocol::Response;
use crate::protocol::ResponseView;

verus! {

/// How long a response may be retried on transient send failures.
#[derive(Clone, Copy, PartialEq, Eq, Structural, Debug)]
pub enum RetryPolicy {
    /// Retry until the send succeeds or the channel fails fatally.
    Unbounded,
    /// Retry one single time, then abandon the response regardless of the
    /// outcome.
    SingleRetry,
}

/// What the dispatcher decided for one command: either no reply is owed, or
/// a response must be delivered under the given retry policy.
#[derive(Debug)]
pub enum DispatchOutcome {
    NoReply,
    Reply(Response, RetryPolicy),
}

/// Mathematical view of a dispatch outcome.
pub open spec fn outcome_view(o: DispatchOutcome) -> Option<(ResponseView, RetryPolicy)> {
    match o {
        DispatchOutcome::NoReply => None,
        DispatchOutcome::Reply(r, p) => Some((r@, p)),
    }
}

/// The documented transition table: how one command moves the lifecycle
/// state. `Stopped` is terminal, a status query and an unrecognized command
/// never move the state, and an invalid transition leaves it unchanged.
pub open spec fn spec_apply(s: ServiceState, c: Command) -> ServiceState {
    match c {
        Command::Pause => if s == ServiceState::Running {
            ServiceState::Paused
        } else {
            s
        },
        Command::Resume => if s == ServiceState::Paused {
            ServiceState::Running
        } else {
            s
        },
        Command::Shutdown => ServiceState::Stopped,
        Command::Status => s,
        Command::Unrecognized => s,
    }
}

/// The fold of the transition table over a whole command sequence.
pub open spec fn spec_replay(s: ServiceState, cmds: Seq<Command>) -> ServiceState
    decreases cmds.len(),
{
    if cmds.len() == 0 {
        s
    } else {
        spec_replay(spec_apply(s, cmds[0]), cmds.skip(1))
    }
}

/// The reply the dispatcher owes for a command dispatched against a handle
/// in the given state: `None` where success is acknowledged by silence,
/// otherwise the exact response and its retry policy.
pub open spec fn spec_outcome(h: HandleView, c: Command) -> Option<(ResponseView, RetryPolicy)> {
    match c {
        Command::Pause => if h.state == ServiceState::Running {
            None
        } else {
            Some((
                ResponseView::Failure(OperationError::InvalidPause { from: h.state }),
                RetryPolicy::Unbounded,
            ))
        },
        Command::Resume => if h.state == ServiceState::Paused {
            None
        } else {
            Some((
                ResponseView::Failure(OperationError::InvalidResume { from: h.state }),
                RetryPolicy::Unbounded,
            ))
        },
        Command::Status => Some((
            ResponseView::Status { state: h.state, host: h.host, port: h.port },
            RetryPolicy::Unbounded,
        )),
        Command::Shutdown => if h.state != ServiceState::Stopped {
            None
        } else {
            Some((
                ResponseView::Failure(OperationError::InvalidStop { from: ServiceState::Stopped }),
                RetryPolicy::SingleRetry,
            ))
        },
        Command::Unrecognized => None,
    }
}

/// Dispatches one command against the service handle: performs the
/// lifecycle operation the command maps to and returns the reply that is
/// owed, if any. Never touches the bound address.
pub fn dispatch(h: &mut ServiceHandle, cmd: Command) -> (r: DispatchOutcome)
    ensures
        final(h)@.host == old(h)@.host,
        final(h)@.port == old(h)@.port,
        final(h)@.state == spec_apply(old(h)@.state, cmd),
        outcome_view(r) == spec_outcome(old(h)@, cmd),
{
    match cmd {
        Command::Pause => match h.pause() {
            Ok(()) => DispatchOutcome::NoReply,
            Err(e) => DispatchOutcome::Reply(Response::Failure(e), RetryPolicy::Unbounded),
        },
        Command::Resume => match h.resume() {
            Ok(()) => DispatchOutcome::NoReply,
            Err(e) => DispatchOutcome::Reply(Response::Failure(e), RetryPolicy::Unbounded),
        },
        Command::Status => {
            let (host, port) = h.address();
            DispatchOutcome::Reply(
                Response::Status { state: h.status(), host, port },
                RetryPolicy::Unbounded,
            )
        },
        Command::Shutdown => match h.stop() {
            Ok(()) => DispatchOutcome::NoReply,
            Err(e) => DispatchOutcome::Reply(Response::Failure(e), RetryPolicy::SingleRetry),
        },
        Command::Unrecognized => DispatchOutcome::NoReply,
    }
}

/// What the command loop does with one readiness result: proceed to receive
/// on success, retry on a transient failure, terminate the daemon's command
/// loop on a fatal one.
#[derive(Clone, PartialEq, Eq, Debug)]
pub enum ReadinessDirective {
    Proceed,
    Retry,
    Terminate(ChannelError),
}

/// Decides the command loop's reaction to one `await_readiness` result.
pub fn on_readiness(r: Result<(), ChannelError>) -> (d: ReadinessDirective)
    ensures
        r is Ok ==> d == ReadinessDirective::Proceed,
        r == Result::<(), ChannelError>::Err(ChannelError::NotReady) ==> d
            == ReadinessDirective::Retry,
        (r is Err && r->Err_0 is Fatal) ==> d == ReadinessDirective::Terminate(r->Err_0),
{
    match r {
        Ok(()) => ReadinessDirective::Proceed,
        Err(ChannelError::NotReady) => ReadinessDirective::Retry,
        Err(e) => ReadinessDirective::Terminate(e),
    }
}

/// What the command loop does with one receive result: dispatch the decoded
/// command, retry on a transient failure, terminate on a fatal one.
#[derive(Clone, PartialEq, Eq, Debug)]
pub enum ReceiveDirective {
    Dispatch(Command),
    Retry,
    Terminate(ChannelError),
}

/// Decides the command loop's reaction to one `receive` result.
pub fn on_receive(r: Result<Command, ChannelError>) -> (d: ReceiveDirective)
    ensures
        r is Ok ==> d == ReceiveDirective::Dispatch(r->Ok_0),
        r == Result::<Command, ChannelError>::Err(ChannelError::NotReady) ==> d
            == ReceiveDirective::Retry,
        (r is Err && r->Err_0 is Fatal) ==> d == ReceiveDirective::Terminate(r->Err_0),
{
    match r {
        Ok(c) => ReceiveDirective::Dispatch(c),
        Err(ChannelError::NotReady) => ReceiveDirective::Retry,
        Err(e) => ReceiveDirective::Terminate(e),
    }
}

/// What the retry-send policy does after one send attempt: the response was
/// delivered, another attempt is due, or the response is abandoned.
#[derive(Clone, PartialEq, Eq, Debug)]
pub enum RetryDirective {
    Delivered,
    TryAgain,
    Abandon(ChannelError),
}

/// Decides the retry-send policy's reaction to one send attempt.
///
/// `attempts` is the number of attempts already made, this one included. A
/// transient failure is retried — without bound under `Unbounded`, and only
/// on the first attempt under `SingleRetry`. A fatal failure always abandons
/// the response, and it is never abandoned after a successful send.
pub fn retry_step(policy: RetryPolicy, attempts: u64, outcome: Result<(), ChannelError>) -> (d:
    RetryDirective)
    requires
        attempts >= 1,
    ensures
        outcome is Ok ==> d == RetryDirective::Delivered,
        (outcome is Err && outcome->Err_0 is Fatal) ==> d == RetryDirective::Abandon(
            outcome->Err_0,
        ),
        outcome == Result::<(), ChannelError>::Err(ChannelError::NotReady) ==> d == (
        if policy == RetryPolicy::Unbounded || attempts < 2 {
            RetryDirective::TryAgain
        } else {
            RetryDirective::Abandon(ChannelError::NotReady)
        }),
{
    match outcome {
        Ok(()) => RetryDirective::Delivered,
        Err(ChannelError::NotReady) => {
            match policy {
                RetryPolicy::Unbounded => RetryDirective::TryAgain,
                RetryPolicy::SingleRetry => {
                    if attempts < 2 {
                        RetryDirective::TryAgain
                    } else {
                        RetryDirective::Abandon(ChannelError::NotReady)
                    }
                },
            }
        },
        Err(e) => RetryDirective::Abandon(e),
    }
}

} // verus!
