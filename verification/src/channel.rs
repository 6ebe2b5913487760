//! The control channel: how one request is put to the kernel's tunnel
//! driver.
//!
//! A request takes three system calls: a socket is opened as a handle, the
//! device-control call is made on it, and the handle is closed again. The
//! channel decides which call is due and what the answer of each means; the
//! caller makes the calls. Whatever the control call answers, the handle is
//! closed before the channel gives its result.

use crate::error::Error;
use crate::name::{encode_name, name_field, name_fits, NAME_SIZE};
use vstd::prelude::*;
use vstd::utf8::{encode_utf8, is_ascii_chars_encode_utf8};

verus! {

/// The device-control code that asks a tunnel driver for a new tunnel.
pub const SIOCADDTUNNEL: u32 = 0x89F0 + 1;

/// The device-control code that asks a tunnel driver to remove a tunnel.
pub const SIOCDELTUNNEL: u32 = 0x89F0 + 2;

/// What a request asks of the driver.
#[derive(Clone, Copy, Debug, PartialEq, Eq, Structural)]
pub enum Operation {
    /// Make the tunnel that the control block describes.
    Add,
    /// Remove the tunnel that the control block names.
    Delete,
}

impl Operation {
    /// The device-control code of the operation.
    pub open spec fn spec_code(self) -> u32 {
        match self {
            Operation::Add => SIOCADDTUNNEL,
            Operation::Delete => SIOCDELTUNNEL,
        }
    }

    /// The device-control code of the operation.
    pub fn code(&self) -> (code: u32)
        ensures
            code == self.spec_code(),
    {
        match self {
            Operation::Add => SIOCADDTUNNEL,
            Operation::Delete => SIOCDELTUNNEL,
        }
    }
}

/// The address family of the socket that serves as the handle.
#[derive(Clone, Copy, Debug, PartialEq, Eq, Structural)]
pub enum AddressFamily {
    /// IPv4.
    Inet,
    /// IPv6.
    Inet6,
}

/// The kind of socket that serves as the handle: always a connectionless one,
/// since nothing is ever sent through it.
#[derive(Clone, Copy, Debug, PartialEq, Eq, Structural)]
pub enum SocketType {
    /// A datagram socket.
    Datagram,
}

/// The kinds of tunnel, each served by a driver of its own.
#[derive(Clone, Copy, Debug, PartialEq, Eq, Structural)]
pub enum TunnelKind {
    /// IPv6 in IPv4.
    Sit,
    /// IPv4 in IPv6.
    IpIp6,
}

impl TunnelKind {
    /// The name of the driver's template device.
    pub open spec fn spec_template(self) -> Seq<char> {
        match self {
            TunnelKind::Sit => "sit0"@,
            TunnelKind::IpIp6 => "ip6tnl0"@,
        }
    }

    /// The name field that addresses the driver: its template's name, not the
    /// name of any tunnel.
    pub open spec fn spec_device(self) -> Seq<u8> {
        name_field(encode_utf8(self.spec_template()))
    }

    /// A template's name has as many bytes as letters, and fits a name field.
    pub proof fn lemma_template(self)
        ensures
            encode_utf8(self.spec_template()).len() == self.spec_template().len(),
            self.spec_template().len() == (if self == TunnelKind::Sit { 4nat } else { 7nat }),
            name_fits(encode_utf8(self.spec_template())),
            self.spec_device().len() == NAME_SIZE,
    {
        reveal_strlit("sit0");
        reveal_strlit("ip6tnl0");
        is_ascii_chars_encode_utf8(self.spec_template());
    }

    /// The name of the driver's template device: `sit0` or `ip6tnl0`.
    pub fn template(&self) -> (name: &'static str)
        ensures
            name@ == self.spec_template(),
    {
        match self {
            TunnelKind::Sit => "sit0",
            TunnelKind::IpIp6 => "ip6tnl0",
        }
    }

    /// The name field that addresses the driver.
    pub fn device(&self) -> (field: Vec<u8>)
        ensures
            field@ == self.spec_device(),
    {
        proof {
            self.lemma_template();
        }
        encode_name(self.template()).unwrap()
    }
}

/// One request to a tunnel driver.
#[derive(Debug, PartialEq, Eq)]
pub struct ControlRequest {
    /// What is asked.
    pub operation: Operation,
    /// The driver that is asked.
    pub kind: TunnelKind,
    /// The family of the socket to ask through.
    pub family: AddressFamily,
    /// The control block that the driver reads.
    pub payload: Vec<u8>,
}

impl ControlRequest {
    /// The name field of the structure that carries the request to the kernel:
    /// always the template device of the request's driver, never the name of
    /// the tunnel, which travels in the control block.
    pub fn device(&self) -> (field: Vec<u8>)
        ensures
            field@ == self.kind.spec_device(),
    {
        self.kind.device()
    }
}

/// A request as contracts speak of it.
pub struct RequestView {
    pub operation: Operation,
    pub kind: TunnelKind,
    pub family: AddressFamily,
    pub payload: Seq<u8>,
}

impl View for ControlRequest {
    type V = RequestView;

    open spec fn view(&self) -> RequestView {
        RequestView {
            operation: self.operation,
            kind: self.kind,
            family: self.family,
            payload: self.payload@,
        }
    }
}

/// What a system call gave back: the value it returned and the error code
/// that was read after it. The code counts only where the value is negative.
#[derive(Clone, Copy, Debug, PartialEq, Eq)]
pub struct Outcome {
    pub value: i32,
    pub errno: i32,
}

impl Outcome {
    /// Whether the call failed: it returned a negative value.
    pub open spec fn spec_failed(self) -> bool {
        self.value < 0
    }

    /// The error code, where the call failed.
    pub open spec fn spec_failure(self) -> Option<i32> {
        if self.value < 0 {
            Some(self.errno)
        } else {
            None
        }
    }

    /// The error code, where the call failed.
    pub fn failure(&self) -> (code: Option<i32>)
        ensures
            code == self.spec_failure(),
    {
        if self.value < 0 {
            Some(self.errno)
        } else {
            None
        }
    }
}

/// How far a channel has come with its request.
#[derive(Clone, Copy, Debug, PartialEq, Eq)]
pub enum Phase {
    /// No handle yet: a socket is to be opened.
    Opening,
    /// The handle is open: the control call is to be made on it.
    Calling { handle: i32 },
    /// The control call has answered: the handle is to be closed.
    Closing { handle: i32, failure: Option<i32> },
    /// No handle is held any more, and the result stands.
    Done { failure: Option<i32> },
}

/// What the caller is to do next for a channel.
#[derive(Debug, PartialEq, Eq)]
pub enum Action {
    /// Open a socket of this family and type, for the default protocol.
    Open { family: AddressFamily, socket: SocketType },
    /// Make the device-control call of the channel's request on this handle.
    Control { handle: i32 },
    /// Close this handle.
    Close { handle: i32 },
    /// Nothing more: the request has been served, with this result.
    Return { result: Result<(), Error> },
}

/// The result that a channel gives for the error code it ended with.
pub open spec fn spec_result(failure: Option<i32>) -> Result<(), Error> {
    match failure {
        None => Ok(()),
        Some(code) => Err(Error::SystemCall(code)),
    }
}

impl Phase {
    /// The phase that follows when the call that was due has given `outcome`.
    ///
    /// A socket that cannot be opened ends the request with the code of that
    /// failure. An open handle is always closed: the control call's failure is
    /// kept over the closing, and what the closing itself gives is ignored.
    pub open spec fn spec_step(self, outcome: Outcome) -> Phase {
        match self {
            Phase::Opening => match outcome.spec_failure() {
                Some(code) => Phase::Done { failure: Some(code) },
                None => Phase::Calling { handle: outcome.value },
            },
            Phase::Calling { handle } => Phase::Closing { handle, failure: outcome.spec_failure() },
            Phase::Closing { handle, failure } => Phase::Done { failure },
            Phase::Done { failure } => Phase::Done { failure },
        }
    }

    /// The call that is due in this phase of a request of the given family.
    pub open spec fn spec_action(self, family: AddressFamily) -> Action {
        match self {
            Phase::Opening => Action::Open { family, socket: SocketType::Datagram },
            Phase::Calling { handle } => Action::Control { handle },
            Phase::Closing { handle, failure } => Action::Close { handle },
            Phase::Done { failure } => Action::Return { result: spec_result(failure) },
        }
    }

    /// The phase reached from this one when the calls that were due have given
    /// `outcomes`, one after the other.
    pub open spec fn spec_run(self, outcomes: Seq<Outcome>) -> Phase
        decreases outcomes.len(),
    {
        if outcomes.len() == 0 {
            self
        } else {
            self.spec_step(outcomes.first()).spec_run(outcomes.drop_first())
        }
    }

    /// The handle that this phase holds open, if it holds one.
    pub open spec fn spec_held(self) -> Option<i32> {
        match self {
            Phase::Calling { handle } => Some(handle),
            Phase::Closing { handle, failure } => Some(handle),
            _ => None,
        }
    }
}

/// A channel that serves one request.
#[derive(Debug)]
pub struct ControlChannel {
    request: ControlRequest,
    phase: Phase,
}

impl ControlChannel {
    /// The request that the channel serves.
    pub closed spec fn spec_request(&self) -> RequestView {
        self.request@
    }

    /// How far the channel has come.
    pub closed spec fn spec_phase(&self) -> Phase {
        self.phase
    }

    /// A channel for `request`, with nothing done yet.
    pub fn send(request: ControlRequest) -> (channel: ControlChannel)
        ensures
            channel.spec_request() == request@,
            channel.spec_phase() == Phase::Opening,
    {
        ControlChannel { request, phase: Phase::Opening }
    }

    /// The request that the channel serves.
    pub fn request(&self) -> (request: &ControlRequest)
        ensures
            request@ == self.spec_request(),
    {
        &self.request
    }

    /// How far the channel has come.
    pub fn phase(&self) -> (phase: Phase)
        ensures
            phase == self.spec_phase(),
    {
        self.phase
    }

    /// The call that is due, or the result once no call is.
    pub fn action(&self) -> (action: Action)
        ensures
            action == self.spec_phase().spec_action(self.spec_request().family),
    {
        match self.phase {
            Phase::Opening => Action::Open {
                family: self.request.family,
                socket: SocketType::Datagram,
            },
            Phase::Calling { handle } => Action::Control { handle },
            Phase::Closing { handle, failure: _ } => Action::Close { handle },
            Phase::Done { failure } => Action::Return {
                result: match failure {
                    None => Ok(()),
                    Some(code) => Err(Error::SystemCall(code)),
                },
            },
        }
    }

    /// Takes what the due call gave back and moves on to the next phase.
    pub fn step(&mut self, outcome: Outcome)
        ensures
            final(self).spec_phase() == old(self).spec_phase().spec_step(outcome),
            final(self).spec_request() == old(self).spec_request(),
    {
        let next = match self.phase {
            Phase::Opening => match outcome.failure() {
                Some(code) => Phase::Done { failure: Some(code) },
                None => Phase::Calling { handle: outcome.value },
            },
            Phase::Calling { handle } => Phase::Closing { handle, failure: outcome.failure() },
            Phase::Closing { handle: _, failure } => Phase::Done { failure },
            Phase::Done { failure } => Phase::Done { failure },
        };
        self.phase = next;
    }
}

/// The result of a request is that of the first call that failed, or success
/// where the socket opened and the control call succeeded. What the closing
/// gives back never changes it.
pub proof fn lemma_result(open: Outcome, control: Outcome, close: Outcome)
    ensures
        Phase::Opening.spec_run(seq![open, control, close]) == (Phase::Done {
            failure: if open.spec_failed() {
                Some(open.errno)
            } else {
                control.spec_failure()
            },
        }),
{
    // The run is the three steps, one after the other.
    let after_open = Phase::Opening.spec_step(open);
    let after_control = after_open.spec_step(control);
    let after_close = after_control.spec_step(close);
    assert(seq![open, control, close].drop_first() =~= seq![control, close]);
    assert(seq![control, close].drop_first() =~= seq![close]);
    assert(seq![close].drop_first() =~= Seq::<Outcome>::empty());
    assert(after_close.spec_run(Seq::<Outcome>::empty()) == after_close);
    assert(after_control.spec_run(seq![close]) == after_close);
    assert(after_open.spec_run(seq![control, close]) == after_close);
}

/// A socket that cannot be opened ends the request at once, with the code of
/// that failure: no control call is made and nothing is closed.
pub proof fn lemma_open_failed(open: Outcome, family: AddressFamily)
    requires
        open.spec_failed(),
    ensures
        Phase::Opening.spec_step(open).spec_action(family) == (Action::Return {
            result: Err(Error::SystemCall(open.errno)),
        }),
        Phase::Opening.spec_step(open).spec_held() is None,
{
}

/// A handle that was opened is closed whatever the control call answers: the
/// control call is made on that handle, the call after it closes that handle,
/// and only then is the channel done.
pub proof fn lemma_handle_closed(
    open: Outcome,
    control: Outcome,
    close: Outcome,
    family: AddressFamily,
)
    requires
        !open.spec_failed(),
    ensures
        Phase::Opening.spec_step(open).spec_action(family) == (Action::Control {
            handle: open.value,
        }),
        Phase::Opening.spec_step(open).spec_step(control).spec_action(family) == (Action::Close {
            handle: open.value,
        }),
        Phase::Opening.spec_step(open).spec_step(control).spec_step(close) is Done,
        Phase::Opening.spec_step(open).spec_step(control).spec_step(close).spec_held() is None,
{
}

/// A handle is given up only by closing it: where a phase holds a handle and
/// the next phase does not hold it, the call that was due was the closing of
/// that handle. And a handle is taken up only by opening it.
pub proof fn lemma_held_until_closed(phase: Phase, outcome: Outcome, family: AddressFamily)
    ensures
        phase.spec_held() is Some && phase.spec_step(outcome).spec_held() != phase.spec_held()
            ==> phase.spec_action(family) == (Action::Close { handle: phase.spec_held()->0 })
            && phase.spec_step(outcome).spec_held() is None,
        phase.spec_held() is None && phase.spec_step(outcome).spec_held() is Some ==> phase
            == Phase::Opening && !outcome.spec_failed() && phase.spec_step(outcome).spec_held()
            == Some(outcome.value),
{
}

/// No request takes more than three calls: after three answers a channel is
/// done, wherever it stood and whatever the answers were.
pub proof fn lemma_run_ends(phase: Phase, outcomes: Seq<Outcome>)
    requires
        outcomes.len() >= 3,
    ensures
        phase.spec_run(outcomes) is Done,
        phase.spec_run(outcomes).spec_held() is None,
{
    // Three steps reach the end from any phase, and the end is final.
    let first = phase.spec_step(outcomes[0]);
    let rest = outcomes.drop_first();
    let second = first.spec_step(rest[0]);
    let tail = rest.drop_first();
    let third = second.spec_step(tail[0]);
    assert(third is Done);
    lemma_done_is_final(third->Done_failure, tail.drop_first());
    assert(second.spec_run(tail) == third.spec_run(tail.drop_first()));
    assert(first.spec_run(rest) == second.spec_run(tail));
}

/// A channel that is done stays done, with the same result, whatever it is
/// told afterwards.
pub proof fn lemma_done_is_final(failure: Option<i32>, outcomes: Seq<Outcome>)
    ensures
        (Phase::Done { failure }).spec_run(outcomes) == (Phase::Done { failure }),
    decreases outcomes.len(),
{
    if outcomes.len() > 0 {
        lemma_done_is_final(failure, outcomes.drop_first());
    }
}

} // verus!
