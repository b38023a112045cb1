//! Command and response vocabulary of the control channel.
//!
//! The wire framing belongs to the transport; the library only fixes the
//! command keywords, the shape of the two response kinds, and the field list
//! of a status response.

use vstd::prelude::*;
use vstd::string::StrSliceExecFns;
use vstd::string::StringExecFns;
use crate::lifecycle::OperationError;
use crate::lifecycle::ServiceState;
use crate::lifecycle::spec_state_name;

verus! {

/// One decoded control command. Any token other than the four keywords
/// decodes to `Unrecognized`, which is silently ignored.
#[derive(Clone, Copy, PartialEq, Eq, Structural, Debug)]
pub enum Command {
    Pause,
    Resume,
    Status,
    Shutdown,
    Unrecognized,
}

/// Error produced by a channel operation.
///
/// `NotReady` is transient ("would block; try again") and never surfaces to
/// the control client: it only drives a retry. `Fatal` is unrecoverable for
/// the channel and carries the underlying cause.
#[derive(Clone, PartialEq, Eq, Debug)]
pub enum ChannelError {
    NotReady,
    Fatal(String),
}

/// One response to a control command: either an ordered list of string
/// key/value fields, or a failure carrying the error being reported.
#[derive(Clone, PartialEq, Eq, Debug)]
pub enum Response {
    /// Success response to a status query: the current state and the bound
    /// address.
    Status { state: ServiceState, host: String, port: u16 },
    /// Failure response: the lifecycle operation was invalid.
    Failure(OperationError),
}

/// Mathematical view of a response.
pub enum ResponseView {
    Status { state: ServiceState, host: Seq<char>, port: u16 },
    Failure(OperationError),
}

impl View for Response {
    type V = ResponseView;

    open spec fn view(&self) -> ResponseView {
        match self {
            Response::Status { state, host, port } => (ResponseView::Status {
                state: *state,
                host: host@,
                port: *port,
            }),
            Response::Failure(e) => ResponseView::Failure(*e),
        }
    }
}

impl Response {
    /// An exact copy of the response, for handing one delivery attempt its
    /// own value.
    pub fn duplicate(&self) -> (c: Response)
        ensures
            c == *self,
    {
        match self {
            Response::Status { state, host, port } => (Response::Status {
                state: *state,
                host: host.clone(),
                port: *port,
            }),
            Response::Failure(e) => Response::Failure(*e),
        }
    }
}

/// The command a message token decodes to. The four keywords are
/// case-sensitive; every other token is `Unrecognized`.
pub open spec fn spec_parse_command(s: Seq<char>) -> Command {
    if s == "PauseServer"@ {
        Command::Pause
    } else if s == "ResumeServer"@ {
        Command::Resume
    } else if s == "StatusServer"@ {
        Command::Status
    } else if s == "ShutdownServer"@ {
        Command::Shutdown
    } else {
        Command::Unrecognized
    }
}

/// Character-for-character equality of two string slices.
fn str_eq_chars(a: &str, b: &str) -> (r: bool)
    ensures
        r == (a@ == b@),
{
    let an = a.unicode_len();
    let bn = b.unicode_len();
    if an != bn {
        proof {
            assert(a@ != b@) by {
                assert(a@.len() != b@.len());
            }
        }
        return false;
    }
    let mut i: usize = 0;
    while i < an
        invariant
            an == a@.len(),
            bn == b@.len(),
            an == bn,
            i <= an,
            forall|k: int| 0 <= k < i ==> a@[k] == b@[k],
        decreases an - i,
    {
        if a.get_char(i) != b.get_char(i) {
            return false;
        }
        i = i + 1;
    }
    proof {
        assert(a@ =~= b@);
    }
    true
}

/// Decodes one message token into a command.
pub fn parse_command(msg: &str) -> (c: Command)
    ensures
        c == spec_parse_command(msg@),
{
    if str_eq_chars(msg, "PauseServer") {
        Command::Pause
    } else if str_eq_chars(msg, "ResumeServer") {
        Command::Resume
    } else if str_eq_chars(msg, "StatusServer") {
        Command::Status
    } else if str_eq_chars(msg, "ShutdownServer") {
        Command::Shutdown
    } else {
        Command::Unrecognized
    }
}

/// The decimal digit character for `d`.
pub open spec fn spec_digit_char(d: nat) -> char {
    if d == 0 {
        '0'
    } else if d == 1 {
        '1'
    } else if d == 2 {
        '2'
    } else if d == 3 {
        '3'
    } else if d == 4 {
        '4'
    } else if d == 5 {
        '5'
    } else if d == 6 {
        '6'
    } else if d == 7 {
        '7'
    } else if d == 8 {
        '8'
    } else {
        '9'
    }
}

/// The decimal representation of `n`, most significant digit first, with no
/// leading zero except for `n == 0` itself.
pub open spec fn spec_decimal(n: nat) -> Seq<char>
    decreases n,
{
    if n < 10 {
        seq![spec_digit_char(n)]
    } else {
        spec_decimal(n / 10).push(spec_digit_char(n % 10))
    }
}

/// The one-character string for a decimal digit.
fn digit_str(d: u16) -> (r: &'static str)
    requires
        d < 10,
    ensures
        r@ =~= seq![spec_digit_char(d as nat)],
{
    proof {
        reveal_strlit("0");
        reveal_strlit("1");
        reveal_strlit("2");
        reveal_strlit("3");
        reveal_strlit("4");
        reveal_strlit("5");
        reveal_strlit("6");
        reveal_strlit("7");
        reveal_strlit("8");
        reveal_strlit("9");
    }
    if d == 0 {
        "0"
    } else if d == 1 {
        "1"
    } else if d == 2 {
        "2"
    } else if d == 3 {
        "3"
    } else if d == 4 {
        "4"
    } else if d == 5 {
        "5"
    } else if d == 6 {
        "6"
    } else if d == 7 {
        "7"
    } else if d == 8 {
        "8"
    } else {
        "9"
    }
}

/// Renders a port number in decimal, as the `port` field of a status
/// response carries it.
pub fn u16_to_string(n: u16) -> (r: String)
    ensures
        r@ == spec_decimal(n as nat),
    decreases n,
{
    if n < 10 {
        String::from_str(digit_str(n))
    } else {
        proof {
            assert(n / 10 < n) by (nonlinear_arith)
                requires
                    n >= 10,
            ;
        }
        let mut s = u16_to_string(n / 10);
        s.append(digit_str(n % 10));
        proof {
            assert(s@ =~= spec_decimal((n / 10) as nat).push(spec_digit_char((n % 10) as nat)));
        }
        s
    }
}

/// Builds the ordered field list of a status response: `status`, then `ip`,
/// then `port`.
pub fn status_fields(state: ServiceState, host: &String, port: u16) -> (r: Vec<(String, String)>)
    ensures
        r@.len() == 3,
        r@[0].0@ == "status"@ && r@[0].1@ == spec_state_name(state),
        r@[1].0@ == "ip"@ && r@[1].1@ == host@,
        r@[2].0@ == "port"@ && r@[2].1@ == spec_decimal(port as nat),
{
    let mut r: Vec<(String, String)> = Vec::new();
    r.push((String::from_str("status"), String::from_str(state.name())));
    r.push((String::from_str("ip"), host.clone()));
    r.push((String::from_str("port"), u16_to_string(port)));
    r
}

} // verus!
