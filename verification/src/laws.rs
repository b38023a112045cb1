//! Laws of the control plane that relate several operations, proved once
//! over all inputs.

use vstd::prelude::*;
use crate::dispatch::RetryPolicy;
use crate::dispatch::spec_apply;
use crate::dispatch::spec_outcome;
use crate::dispatch::spec_replay;
use crate::lifecycle::HandleView;
use crate::lifecycle::OperationError;
use crate::lifecycle::ServiceState;
use crate::protocol::Command;
use crate::protocol::ResponseView;

verus! {

/// The command sequence with every status query removed.
pub open spec fn strip_status(cmds: Seq<Command>) -> Seq<Command>
    decreases cmds.len(),
{
    if cmds.len() == 0 {
        Seq::empty()
    } else if cmds[0] is Status {
        strip_status(cmds.skip(1))
    } else {
        seq![cmds[0]] + strip_status(cmds.skip(1))
    }
}

/// A status query never mutates state: replaying a command sequence ends in
/// the same state as replaying it with every status query removed, so any
/// number of status queries issued between other commands leaves the state
/// trajectory unchanged.
pub proof fn lemma_status_never_mutates(st: ServiceState, cmds: Seq<Command>)
    ensures
        spec_replay(st, cmds) == spec_replay(st, strip_status(cmds)),
    decreases cmds.len(),
{
    if cmds.len() == 0 {
    } else if cmds[0] is Status {
        assert(spec_apply(st, cmds[0]) == st);
        lemma_status_never_mutates(st, cmds.skip(1));
    } else {
        lemma_status_never_mutates(spec_apply(st, cmds[0]), cmds.skip(1));
        let stripped = seq![cmds[0]] + strip_status(cmds.skip(1));
        assert(stripped[0] == cmds[0]);
        assert(stripped.skip(1) =~= strip_status(cmds.skip(1)));
        assert(spec_replay(st, stripped) == spec_replay(
            spec_apply(st, cmds[0]),
            strip_status(cmds.skip(1)),
        ));
    }
}

/// `Stopped` is terminal: no command sequence replayed from `Stopped` ever
/// leaves it.
pub proof fn lemma_stopped_is_terminal(cmds: Seq<Command>)
    ensures
        spec_replay(ServiceState::Stopped, cmds) == ServiceState::Stopped,
    decreases cmds.len(),
{
    if cmds.len() == 0 {
    } else {
        assert(spec_apply(ServiceState::Stopped, cmds[0]) == ServiceState::Stopped);
        lemma_stopped_is_terminal(cmds.skip(1));
    }
}

/// Once stopped, every mutating command fails — pause, resume and shutdown
/// each owe the client the matching failure response — while a status query
/// keeps succeeding and reports `Stopped`.
pub proof fn lemma_stopped_rejects_operations(h: HandleView)
    requires
        h.state == ServiceState::Stopped,
    ensures
        spec_outcome(h, Command::Pause) == Some((
            ResponseView::Failure(OperationError::InvalidPause { from: ServiceState::Stopped }),
            RetryPolicy::Unbounded,
        )),
        spec_outcome(h, Command::Resume) == Some((
            ResponseView::Failure(OperationError::InvalidResume { from: ServiceState::Stopped }),
            RetryPolicy::Unbounded,
        )),
        spec_outcome(h, Command::Shutdown) == Some((
            ResponseView::Failure(OperationError::InvalidStop { from: ServiceState::Stopped }),
            RetryPolicy::SingleRetry,
        )),
        spec_outcome(h, Command::Status) == Some((
            (ResponseView::Status { state: ServiceState::Stopped, host: h.host, port: h.port }),
            RetryPolicy::Unbounded,
        )),
{
}

} // verus!
