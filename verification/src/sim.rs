//! A scripted control channel and the command loop run against it.
//!
//! The transport is an external collaborator; what the library owns is the
//! loop that drives it: retry on `NotReady`, dispatch each decoded command,
//! deliver the owed response under its retry policy, and terminate only on a
//! fatal channel error. `SimChannel` plays the collaborator from a fixed
//! script of operation outcomes, so that the loop's behaviour is proved for
//! every script and can be exercised by tests.

use vstd::prelude::*;
use vstd::string::StringExecFns;
use crate::dispatch::DispatchOutcome;
use crate::dispatch::ReadinessDirective;
use crate::dispatch::ReceiveDirective;
use crate::dispatch::RetryDirective;
use crate::dispatch::RetryPolicy;
use crate::dispatch::dispatch;
use crate::dispatch::on_readiness;
use crate::dispatch::on_receive;
use crate::dispatch::retry_step;
use crate::dispatch::spec_apply;
use crate::dispatch::spec_outcome;
use crate::dispatch::spec_replay;
use crate::lifecycle::HandleView;
use crate::lifecycle::ServiceHandle;
use crate::protocol::ChannelError;
use crate::protocol::Command;
use crate::protocol::Response;

verus! {

/// Mathematical view of a scripted channel: the three operation scripts,
/// how far each has been consumed, and the responses delivered so far.
pub struct SimView {
    pub ready: Seq<Result<(), ChannelError>>,
    pub ready_pos: int,
    pub recv: Seq<Result<Command, ChannelError>>,
    pub recv_pos: int,
    pub send: Seq<Result<(), ChannelError>>,
    pub send_pos: int,
    pub sent: Seq<Response>,
}

impl SimView {
    /// Each cursor stays within its script.
    pub open spec fn wf(self) -> bool {
        &&& 0 <= self.ready_pos <= self.ready.len()
        &&& 0 <= self.recv_pos <= self.recv.len()
        &&& 0 <= self.send_pos <= self.send.len()
    }
}

/// A control channel whose operation outcomes follow a fixed script: the
/// next entry of the matching script answers each call. A script that runs
/// out answers like a channel that was closed: a fatal error.
pub struct SimChannel {
    ready_script: Vec<Result<(), ChannelError>>,
    ready_pos: usize,
    recv_script: Vec<Result<Command, ChannelError>>,
    recv_pos: usize,
    send_script: Vec<Result<(), ChannelError>>,
    send_pos: usize,
    sent: Vec<Response>,
}

impl View for SimChannel {
    type V = SimView;

    closed spec fn view(&self) -> SimView {
        SimView {
            ready: self.ready_script@,
            ready_pos: self.ready_pos as int,
            recv: self.recv_script@,
            recv_pos: self.recv_pos as int,
            send: self.send_script@,
            send_pos: self.send_pos as int,
            sent: self.sent@,
        }
    }
}

/// An exact copy of one send or readiness outcome.
fn copy_unit_outcome(e: &Result<(), ChannelError>) -> (r: Result<(), ChannelError>)
    ensures
        r == *e,
{
    match e {
        Ok(u) => {
            let r = Ok::<(), ChannelError>(*u);
            assert(r == *e);
            r
        },
        Err(ChannelError::NotReady) => {
            let r = Err::<(), ChannelError>(ChannelError::NotReady);
            assert(r == *e);
            r
        },
        Err(ChannelError::Fatal(m)) => {
            let r = Err::<(), ChannelError>(ChannelError::Fatal(m.clone()));
            assert(r == *e);
            r
        },
    }
}

/// An exact copy of one receive outcome.
fn copy_recv_outcome(e: &Result<Command, ChannelError>) -> (r: Result<Command, ChannelError>)
    ensures
        r == *e,
{
    match e {
        Ok(c) => {
            let r = Ok::<Command, ChannelError>(*c);
            assert(r == *e);
            r
        },
        Err(ChannelError::NotReady) => {
            let r = Err::<Command, ChannelError>(ChannelError::NotReady);
            assert(r == *e);
            r
        },
        Err(ChannelError::Fatal(m)) => {
            let r = Err::<Command, ChannelError>(ChannelError::Fatal(m.clone()));
            assert(r == *e);
            r
        },
    }
}

impl SimChannel {
    /// A fresh channel that will answer its calls from the given scripts.
    pub fn new(
        ready: Vec<Result<(), ChannelError>>,
        recv: Vec<Result<Command, ChannelError>>,
        send: Vec<Result<(), ChannelError>>,
    ) -> (r: SimChannel)
        ensures
            r@.wf(),
            r@.ready == ready@,
            r@.recv == recv@,
            r@.send == send@,
            r@.ready_pos == 0,
            r@.recv_pos == 0,
            r@.send_pos == 0,
            r@.sent == Seq::<Response>::empty(),
    {
        SimChannel {
            ready_script: ready,
            ready_pos: 0,
            recv_script: recv,
            recv_pos: 0,
            send_script: send,
            send_pos: 0,
            sent: Vec::new(),
        }
    }

    /// The responses delivered over this channel so far, oldest first.
    pub fn sent(&self) -> (r: &Vec<Response>)
        ensures
            r@ == self@.sent,
    {
        &self.sent
    }

    /// Suspends until the channel has an event ready: answers with the next
    /// entry of the readiness script, or fatally once the script is out.
    pub fn await_readiness(&mut self) -> (r: Result<(), ChannelError>)
        requires
            old(self)@.wf(),
        ensures
            final(self)@.wf(),
            final(self)@.ready == old(self)@.ready,
            final(self)@.recv == old(self)@.recv,
            final(self)@.send == old(self)@.send,
            final(self)@.recv_pos == old(self)@.recv_pos,
            final(self)@.send_pos == old(self)@.send_pos,
            final(self)@.sent == old(self)@.sent,
            old(self)@.ready_pos < old(self)@.ready.len() ==> {
                &&& r == old(self)@.ready[old(self)@.ready_pos]
                &&& final(self)@.ready_pos == old(self)@.ready_pos + 1
            },
            old(self)@.ready_pos == old(self)@.ready.len() ==> {
                &&& r is Err && r->Err_0 is Fatal
                &&& r->Err_0->Fatal_0@ == "control channel closed"@
                &&& final(self)@.ready_pos == old(self)@.ready_pos
            },
    {
        if self.ready_pos < self.ready_script.len() {
            let i = self.ready_pos;
            self.ready_pos = i + 1;
            copy_unit_outcome(&self.ready_script[i])
        } else {
            Err(ChannelError::Fatal(String::from_str("control channel closed")))
        }
    }

    /// Decodes one command from the channel: answers with the next entry of
    /// the receive script, or fatally once the script is out.
    pub fn receive(&mut self) -> (r: Result<Command, ChannelError>)
        requires
            old(self)@.wf(),
        ensures
            final(self)@.wf(),
            final(self)@.ready == old(self)@.ready,
            final(self)@.recv == old(self)@.recv,
            final(self)@.send == old(self)@.send,
            final(self)@.ready_pos == old(self)@.ready_pos,
            final(self)@.send_pos == old(self)@.send_pos,
            final(self)@.sent == old(self)@.sent,
            old(self)@.recv_pos < old(self)@.recv.len() ==> {
                &&& r == old(self)@.recv[old(self)@.recv_pos]
                &&& final(self)@.recv_pos == old(self)@.recv_pos + 1
            },
            old(self)@.recv_pos == old(self)@.recv.len() ==> {
                &&& r is Err && r->Err_0 is Fatal
                &&& r->Err_0->Fatal_0@ == "control channel closed"@
                &&& final(self)@.recv_pos == old(self)@.recv_pos
            },
    {
        if self.recv_pos < self.recv_script.len() {
            let i = self.recv_pos;
            self.recv_pos = i + 1;
            copy_recv_outcome(&self.recv_script[i])
        } else {
            Err(ChannelError::Fatal(String::from_str("control channel closed")))
        }
    }

    /// Transmits one response: answers with the next entry of the send
    /// script, or fatally once the script is out. Only a successful send
    /// delivers the response, unchanged, to the client.
    pub fn send(&mut self, resp: &Response) -> (r: Result<(), ChannelError>)
        requires
            old(self)@.wf(),
        ensures
            final(self)@.wf(),
            final(self)@.ready == old(self)@.ready,
            final(self)@.recv == old(self)@.recv,
            final(self)@.send == old(self)@.send,
            final(self)@.ready_pos == old(self)@.ready_pos,
            final(self)@.recv_pos == old(self)@.recv_pos,
            old(self)@.send_pos < old(self)@.send.len() ==> {
                &&& r == old(self)@.send[old(self)@.send_pos]
                &&& final(self)@.send_pos == old(self)@.send_pos + 1
                &&& (r is Ok ==> final(self)@.sent == old(self)@.sent.push(*resp))
                &&& (r is Err ==> final(self)@.sent == old(self)@.sent)
            },
            old(self)@.send_pos == old(self)@.send.len() ==> {
                &&& r is Err && r->Err_0 is Fatal
                &&& r->Err_0->Fatal_0@ == "control channel closed"@
                &&& final(self)@.send_pos == old(self)@.send_pos
                &&& final(self)@.sent == old(self)@.sent
            },
    {
        if self.send_pos < self.send_script.len() {
            let i = self.send_pos;
            self.send_pos = i + 1;
            let outcome = copy_unit_outcome(&self.send_script[i]);
            if outcome.is_ok() {
                self.sent.push(resp.duplicate());
            }
            outcome
        } else {
            Err(ChannelError::Fatal(String::from_str("control channel closed")))
        }
    }
}

/// How many consecutive transient failures the send script holds from
/// position `i` on.
pub open spec fn nr_run(s: Seq<Result<(), ChannelError>>, i: int) -> int
    decreases s.len() - i,
{
    if i < 0 || i >= s.len() {
        0
    } else if s[i] == Err::<(), ChannelError>(ChannelError::NotReady) {
        1 + nr_run(s, i + 1)
    } else {
        0
    }
}

/// Whether a retry-send started at position `p` of the send script delivers
/// its response: under the unbounded policy, when the leading run of
/// transient failures ends in a successful send; under the bounded one,
/// when the first or — after one transient failure — the second attempt
/// succeeds.
pub open spec fn spec_delivery(
    s: Seq<Result<(), ChannelError>>,
    p: int,
    policy: RetryPolicy,
) -> bool {
    if policy == RetryPolicy::Unbounded {
        p + nr_run(s, p) < s.len() && s[p + nr_run(s, p)] is Ok
    } else {
        ||| (p < s.len() && s[p] is Ok)
        ||| (p + 1 < s.len() && s[p] == Err::<(), ChannelError>(ChannelError::NotReady) && s[p
            + 1] is Ok)
    }
}

/// Where the send cursor stands after a retry-send started at position `p`:
/// how many script entries the attempts consumed.
pub open spec fn spec_send_end(
    s: Seq<Result<(), ChannelError>>,
    p: int,
    policy: RetryPolicy,
) -> int {
    if policy == RetryPolicy::Unbounded {
        if p + nr_run(s, p) < s.len() {
            p + nr_run(s, p) + 1
        } else {
            s.len() as int
        }
    } else {
        if p >= s.len() {
            s.len() as int
        } else if s[p] != Err::<(), ChannelError>(ChannelError::NotReady) {
            p + 1
        } else if p + 1 < s.len() {
            p + 2
        } else {
            s.len() as int
        }
    }
}

/// The fate of one response handed to the retry-send policy.
#[derive(Clone, PartialEq, Eq, Debug)]
pub enum DeliveryResult {
    /// The response reached the client, unchanged.
    Delivered,
    /// The response was given up on: the channel failed fatally, or the
    /// bounded policy ran out of attempts on a transient failure.
    Abandoned(ChannelError),
}

/// Attempts to send one response, retrying per the policy: on a transient
/// failure the send is repeated — without bound under `Unbounded`, exactly
/// once under `SingleRetry` — and a fatal error abandons the response.
/// Delivery is all-or-nothing: the client sees the original response or
/// nothing.
pub fn retry_send(ch: &mut SimChannel, resp: &Response, policy: RetryPolicy) -> (r: DeliveryResult)
    requires
        old(ch)@.wf(),
    ensures
        final(ch)@.wf(),
        final(ch)@.ready == old(ch)@.ready,
        final(ch)@.recv == old(ch)@.recv,
        final(ch)@.send == old(ch)@.send,
        final(ch)@.ready_pos == old(ch)@.ready_pos,
        final(ch)@.recv_pos == old(ch)@.recv_pos,
        r is Delivered <==> spec_delivery(old(ch)@.send, old(ch)@.send_pos, policy),
        r is Delivered ==> final(ch)@.sent == old(ch)@.sent.push(*resp),
        r is Abandoned ==> final(ch)@.sent == old(ch)@.sent,
        final(ch)@.send_pos == spec_send_end(old(ch)@.send, old(ch)@.send_pos, policy),
        old(ch)@.send_pos <= final(ch)@.send_pos,
        policy == RetryPolicy::Unbounded ==> ({
            let s = old(ch)@.send;
            let p = old(ch)@.send_pos;
            let k = nr_run(s, p);
            &&& (p + k < s.len() && s[p + k] is Err ==> r == DeliveryResult::Abandoned(
                s[p + k]->Err_0,
            ))
            &&& (p + k >= s.len() ==> r is Abandoned && r->Abandoned_0 is Fatal
                && r->Abandoned_0->Fatal_0@ == "control channel closed"@)
        }),
        policy == RetryPolicy::SingleRetry ==> ({
            let s = old(ch)@.send;
            let p = old(ch)@.send_pos;
            &&& (p < s.len() && s[p] is Err && !(s[p]->Err_0 is NotReady) ==> r
                == DeliveryResult::Abandoned(s[p]->Err_0))
            &&& (p < s.len() && s[p] is Err && s[p]->Err_0 is NotReady && p + 1 < s.len() && s[p
                + 1] is Err ==> r == DeliveryResult::Abandoned(s[p + 1]->Err_0))
            &&& ((p >= s.len() || (s[p] is Err && s[p]->Err_0 is NotReady && p + 1 >= s.len()))
                ==> r is Abandoned && r->Abandoned_0 is Fatal && r->Abandoned_0->Fatal_0@
                == "control channel closed"@)
        }),
{
    let ghost s = old(ch)@.send;
    let ghost p0 = old(ch)@.send_pos;
    let ghost sent0 = old(ch)@.sent;
    let mut attempts: u64 = 0;
    loop
        invariant
            s == old(ch)@.send,
            p0 == old(ch)@.send_pos,
            sent0 == old(ch)@.sent,
            0 <= p0,
            ch@.wf(),
            ch@.ready == old(ch)@.ready,
            ch@.recv == old(ch)@.recv,
            ch@.ready_pos == old(ch)@.ready_pos,
            ch@.recv_pos == old(ch)@.recv_pos,
            ch@.send == s,
            ch@.sent == sent0,
            p0 <= ch@.send_pos <= s.len(),
            forall|k: int| p0 <= k < ch@.send_pos ==> s[k] == Err::<(), ChannelError>(
                ChannelError::NotReady,
            ),
            nr_run(s, p0) == ch@.send_pos - p0 + nr_run(s, ch@.send_pos),
            attempts == (if ch@.send_pos - p0 < 2 {
                ch@.send_pos - p0
            } else {
                2int
            }),
            policy == RetryPolicy::SingleRetry ==> ch@.send_pos - p0 <= 1,
        decreases s.len() - ch@.send_pos,
    {
        let ghost pos_before = ch@.send_pos;
        let outcome = ch.send(resp);
        if attempts < 2 {
            attempts = attempts + 1;
        }
        proof {
            if pos_before < s.len() && s[pos_before] == Err::<(), ChannelError>(
                ChannelError::NotReady,
            ) {
                assert(nr_run(s, pos_before) == 1 + nr_run(s, pos_before + 1));
            }
        }
        match retry_step(policy, attempts, outcome) {
            RetryDirective::Delivered => {
                proof {
                    assert(nr_run(s, pos_before) == 0);
                }
                return DeliveryResult::Delivered;
            },
            RetryDirective::Abandon(e) => {
                proof {
                    if pos_before < s.len() && !(s[pos_before] == Err::<(), ChannelError>(
                        ChannelError::NotReady,
                    )) {
                        assert(nr_run(s, pos_before) == 0);
                    }
                    if pos_before == s.len() {
                        assert(nr_run(s, pos_before) == 0);
                    }
                }
                return DeliveryResult::Abandoned(e);
            },
            RetryDirective::TryAgain => {},
        }
    }
}

/// The commands among the `Ok` entries of a receive script between two
/// cursor positions, in script order.
pub open spec fn ok_cmds(s: Seq<Result<Command, ChannelError>>, lo: int, hi: int) -> Seq<Command>
    decreases hi - lo,
{
    if lo < 0 || lo >= hi || hi > s.len() {
        Seq::empty()
    } else if s[lo] is Ok {
        seq![s[lo]->Ok_0] + ok_cmds(s, lo + 1, hi)
    } else {
        ok_cmds(s, lo + 1, hi)
    }
}

/// Consuming one more receive entry extends the decoded-command sequence by
/// that entry's command, if it holds one.
proof fn lemma_ok_cmds_extend(s: Seq<Result<Command, ChannelError>>, lo: int, q: int)
    requires
        0 <= lo <= q < s.len(),
    ensures
        ok_cmds(s, lo, q + 1) == ok_cmds(s, lo, q) + (if s[q] is Ok {
            seq![s[q]->Ok_0]
        } else {
            Seq::<Command>::empty()
        }),
    decreases q - lo,
{
    if lo == q {
        assert(ok_cmds(s, lo, q) =~= Seq::<Command>::empty());
        assert(ok_cmds(s, q + 1, q + 1) =~= Seq::<Command>::empty());
        assert(ok_cmds(s, lo, q + 1) =~= ok_cmds(s, lo, q) + (if s[q] is Ok {
            seq![s[q]->Ok_0]
        } else {
            Seq::<Command>::empty()
        }));
    } else {
        lemma_ok_cmds_extend(s, lo + 1, q);
        assert(ok_cmds(s, lo, q + 1) =~= ok_cmds(s, lo, q) + (if s[q] is Ok {
            seq![s[q]->Ok_0]
        } else {
            Seq::<Command>::empty()
        }));
    }
}

/// Replaying one more command folds one more step of the transition table.
proof fn lemma_replay_push(st: crate::lifecycle::ServiceState, cmds: Seq<Command>, c: Command)
    ensures
        spec_replay(st, cmds.push(c)) == spec_apply(spec_replay(st, cmds), c),
    decreases cmds.len(),
{
    if cmds.len() == 0 {
        assert(cmds.push(c).skip(1) =~= Seq::<Command>::empty());
        assert(spec_replay(spec_apply(st, c), Seq::<Command>::empty()) == spec_apply(st, c));
        assert(spec_replay(st, cmds) == st);
    } else {
        lemma_replay_push(spec_apply(st, cmds[0]), cmds.skip(1), c);
        assert(cmds.push(c).skip(1) =~= cmds.skip(1).push(c));
        assert(spec_replay(st, cmds.push(c)) == spec_replay(
            spec_apply(st, cmds[0]),
            cmds.skip(1).push(c),
        ));
        assert(spec_replay(st, cmds) == spec_replay(spec_apply(st, cmds[0]), cmds.skip(1)));
    }
}

/// Processes one decoded command to completion: dispatches it against the
/// handle and, where a reply is owed, delivers it under its retry policy.
///
/// The state moves exactly one step of the transition table, whatever the
/// send script answers; a command that owes no reply — a successful mutating
/// command, or an unrecognized one — writes nothing to the channel at all.
pub fn process_command(h: &mut ServiceHandle, ch: &mut SimChannel, cmd: Command) -> (r: Option<
    DeliveryResult,
>)
    requires
        old(ch)@.wf(),
    ensures
        final(ch)@.wf(),
        final(h)@.host == old(h)@.host,
        final(h)@.port == old(h)@.port,
        final(h)@.state == spec_apply(old(h)@.state, cmd),
        final(ch)@.ready == old(ch)@.ready,
        final(ch)@.recv == old(ch)@.recv,
        final(ch)@.send == old(ch)@.send,
        final(ch)@.ready_pos == old(ch)@.ready_pos,
        final(ch)@.recv_pos == old(ch)@.recv_pos,
        spec_outcome(old(h)@, cmd) is None ==> {
            &&& r is None
            &&& final(ch)@ == old(ch)@
        },
        spec_outcome(old(h)@, cmd) is Some ==> {
            let (rv, policy) = spec_outcome(old(h)@, cmd)->Some_0;
            &&& r is Some
            &&& (r->Some_0 is Delivered <==> spec_delivery(
                old(ch)@.send,
                old(ch)@.send_pos,
                policy,
            ))
            &&& (r->Some_0 is Delivered ==> {
                &&& final(ch)@.sent.len() == old(ch)@.sent.len() + 1
                &&& final(ch)@.sent.drop_last() == old(ch)@.sent
                &&& final(ch)@.sent.last()@ == rv
            })
            &&& (r->Some_0 is Abandoned ==> final(ch)@.sent == old(ch)@.sent)
            &&& final(ch)@.send_pos == spec_send_end(old(ch)@.send, old(ch)@.send_pos, policy)
        },
        old(ch)@.send_pos <= final(ch)@.send_pos,
{
    match dispatch(h, cmd) {
        DispatchOutcome::NoReply => None,
        DispatchOutcome::Reply(resp, policy) => {
            let d = retry_send(ch, &resp, policy);
            proof {
                if d is Delivered {
                    assert(ch@.sent.drop_last() =~= old(ch)@.sent);
                }
            }
            Some(d)
        },
    }
}

/// How the command loop came to its end: a fatal error taken from one of
/// the channel's scripts, or a script running out — a closed channel.
pub enum LoopExitSpec {
    FromScript(ChannelError),
    Closed,
}

/// Everything the command loop leaves behind: how it exits, the commands it
/// dispatches in order, and where each script cursor ends.
pub struct LoopResult {
    pub exit: LoopExitSpec,
    pub dispatched: Seq<Command>,
    pub ready_pos: int,
    pub recv_pos: int,
    pub send_pos: int,
}

/// The command loop as a function of the channel's scripts. Each iteration
/// consumes one readiness entry: a transient failure is retried, a fatal one
/// ends the loop. A ready channel yields one receive entry: a transient
/// failure is retried, a fatal one ends the loop, and a decoded command
/// moves the state one step of the transition table and spends on the send
/// script whatever its owed reply's retry policy spends.
pub open spec fn spec_loop(
    ready: Seq<Result<(), ChannelError>>,
    rp: int,
    recv: Seq<Result<Command, ChannelError>>,
    vp: int,
    send: Seq<Result<(), ChannelError>>,
    sp: int,
    h: HandleView,
) -> LoopResult
    decreases ready.len() - rp,
{
    if rp < 0 || rp >= ready.len() {
        LoopResult {
            exit: LoopExitSpec::Closed,
            dispatched: Seq::empty(),
            ready_pos: rp,
            recv_pos: vp,
            send_pos: sp,
        }
    } else if ready[rp] is Err {
        if ready[rp]->Err_0 is NotReady {
            spec_loop(ready, rp + 1, recv, vp, send, sp, h)
        } else {
            LoopResult {
                exit: LoopExitSpec::FromScript(ready[rp]->Err_0),
                dispatched: Seq::empty(),
                ready_pos: rp + 1,
                recv_pos: vp,
                send_pos: sp,
            }
        }
    } else if vp < 0 || vp >= recv.len() {
        LoopResult {
            exit: LoopExitSpec::Closed,
            dispatched: Seq::empty(),
            ready_pos: rp + 1,
            recv_pos: vp,
            send_pos: sp,
        }
    } else if recv[vp] is Err {
        if recv[vp]->Err_0 is NotReady {
            spec_loop(ready, rp + 1, recv, vp + 1, send, sp, h)
        } else {
            LoopResult {
                exit: LoopExitSpec::FromScript(recv[vp]->Err_0),
                dispatched: Seq::empty(),
                ready_pos: rp + 1,
                recv_pos: vp + 1,
                send_pos: sp,
            }
        }
    } else {
        let cmd = recv[vp]->Ok_0;
        let sp2 = if spec_outcome(h, cmd) is Some {
            spec_send_end(send, sp, spec_outcome(h, cmd)->Some_0.1)
        } else {
            sp
        };
        let h2 = HandleView { state: spec_apply(h.state, cmd), host: h.host, port: h.port };
        let rest = spec_loop(ready, rp + 1, recv, vp + 1, send, sp2, h2);
        LoopResult {
            exit: rest.exit,
            dispatched: seq![cmd] + rest.dispatched,
            ready_pos: rest.ready_pos,
            recv_pos: rest.recv_pos,
            send_pos: rest.send_pos,
        }
    }
}

/// Runs the command loop to the end of its channel: awaits readiness,
/// retries transient failures, decodes and processes one command at a time,
/// and stops only when the channel fails fatally — which a finite script
/// guarantees it eventually does.
///
/// Returns the fatal error that ended the loop and the commands dispatched
/// before it, in order: the state the handle is left in is exactly the fold
/// of the transition table over those commands, however many transient
/// failures the scripts held; everything else the loop did — where it
/// stopped reading, how much of the send script it spent, how it exits — is
/// `spec_loop` of the starting scripts.
pub fn run_command_loop(h: &mut ServiceHandle, ch: &mut SimChannel) -> (r: (
    ChannelError,
    Vec<Command>,
))
    requires
        old(ch)@.wf(),
    ensures
        final(ch)@.wf(),
        final(h)@.host == old(h)@.host,
        final(h)@.port == old(h)@.port,
        final(h)@.state == spec_replay(old(h)@.state, r.1@),
        r.0 is Fatal,
        final(ch)@.ready == old(ch)@.ready,
        final(ch)@.recv == old(ch)@.recv,
        final(ch)@.send == old(ch)@.send,
        old(ch)@.recv_pos <= final(ch)@.recv_pos,
        r.1@ == ok_cmds(old(ch)@.recv, old(ch)@.recv_pos, final(ch)@.recv_pos),
        ({
            let t = spec_loop(
                old(ch)@.ready,
                old(ch)@.ready_pos,
                old(ch)@.recv,
                old(ch)@.recv_pos,
                old(ch)@.send,
                old(ch)@.send_pos,
                old(h)@,
            );
            &&& r.1@ == t.dispatched
            &&& final(ch)@.ready_pos == t.ready_pos
            &&& final(ch)@.recv_pos == t.recv_pos
            &&& final(ch)@.send_pos == t.send_pos
            &&& (match t.exit {
                LoopExitSpec::FromScript(e) => r.0 == e,
                LoopExitSpec::Closed => r.0 is Fatal && r.0->Fatal_0@
                    == "control channel closed"@,
            })
        }),
{
    let ghost state0 = old(h)@.state;
    let ghost recv_pos0 = old(ch)@.recv_pos;
    let mut dispatched: Vec<Command> = Vec::new();
    loop
        invariant
            state0 == old(h)@.state,
            recv_pos0 == old(ch)@.recv_pos,
            0 <= recv_pos0,
            ch@.wf(),
            ch@.ready == old(ch)@.ready,
            ch@.recv == old(ch)@.recv,
            ch@.send == old(ch)@.send,
            recv_pos0 <= ch@.recv_pos,
            h@.host == old(h)@.host,
            h@.port == old(h)@.port,
            h@.state == spec_replay(state0, dispatched@),
            dispatched@ == ok_cmds(ch@.recv, recv_pos0, ch@.recv_pos),
            ({
                let t = spec_loop(
                    old(ch)@.ready,
                    old(ch)@.ready_pos,
                    old(ch)@.recv,
                    old(ch)@.recv_pos,
                    old(ch)@.send,
                    old(ch)@.send_pos,
                    old(h)@,
                );
                let c = spec_loop(
                    ch@.ready,
                    ch@.ready_pos,
                    ch@.recv,
                    ch@.recv_pos,
                    ch@.send,
                    ch@.send_pos,
                    h@,
                );
                &&& t.exit == c.exit
                &&& t.dispatched =~= dispatched@ + c.dispatched
                &&& t.ready_pos == c.ready_pos
                &&& t.recv_pos == c.recv_pos
                &&& t.send_pos == c.send_pos
            }),
        decreases (ch@.ready.len() - ch@.ready_pos) + (ch@.recv.len() - ch@.recv_pos) + (
        ch@.send.len() - ch@.send_pos),
    {
        let ghost rp_i = ch@.ready_pos;
        let ghost vp_i = ch@.recv_pos;
        let ghost sp_i = ch@.send_pos;
        let ghost h_i = h@;
        match on_readiness(ch.await_readiness()) {
            ReadinessDirective::Proceed => {
                let ghost q = ch@.recv_pos;
                let received = ch.receive();
                proof {
                    if q < ch@.recv.len() {
                        lemma_ok_cmds_extend(ch@.recv, recv_pos0, q);
                        if ch@.recv[q] is Ok {
                            assert(ok_cmds(ch@.recv, recv_pos0, q + 1) =~= dispatched@.push(
                                ch@.recv[q]->Ok_0,
                            ));
                        } else {
                            assert(ok_cmds(ch@.recv, recv_pos0, q + 1) =~= dispatched@);
                        }
                    }
                }
                match on_receive(received) {
                    ReceiveDirective::Dispatch(cmd) => {
                        proof {
                            lemma_replay_push(state0, dispatched@, cmd);
                        }
                        let ghost disp_before = dispatched@;
                        dispatched.push(cmd);
                        process_command(h, ch, cmd);
                        proof {
                            let rest = spec_loop(
                                ch@.ready,
                                rp_i + 1,
                                ch@.recv,
                                vp_i + 1,
                                ch@.send,
                                ch@.send_pos,
                                h@,
                            );
                            assert(spec_loop(
                                ch@.ready,
                                rp_i,
                                ch@.recv,
                                vp_i,
                                ch@.send,
                                sp_i,
                                h_i,
                            ).dispatched =~= seq![cmd] + rest.dispatched);
                            assert(disp_before + (seq![cmd] + rest.dispatched)
                                =~= dispatched@ + rest.dispatched);
                        }
                    },
                    ReceiveDirective::Retry => {},
                    ReceiveDirective::Terminate(e) => {
                        return (e, dispatched);
                    },
                }
            },
            ReadinessDirective::Retry => {},
            ReadinessDirective::Terminate(e) => {
                return (e, dispatched);
            },
        }
    }
}

} // verus!
