use vstd::prelude::*;

use crate::transport::{TransportError, CONNECT_TIMEOUT_SECS};

verus! {

/// Why a probe failed, as the caller sees it. Each kind keeps the text of the
/// underlying error for diagnostics.
#[derive(Clone, Debug, PartialEq, Eq)]
pub enum ProbeError {
    /// The transport could not be set up; the handshake was never tried.
    Transport(TransportError),
    /// The transport was set up and the protocol engine reported this error.
    Handshake(String),
}

/// The text of the error underneath `e`.
pub open spec fn cause_of(e: ProbeError) -> Seq<char> {
    match e {
        ProbeError::Transport(TransportError::InvalidAddress(c)) => c@,
        ProbeError::Transport(TransportError::Connect(c)) => c@,
        ProbeError::Transport(TransportError::NoDelay(c)) => c@,
        ProbeError::Handshake(c) => c@,
    }
}

impl ProbeError {
    /// The message reported across the library's boundary.
    pub fn message(&self) -> (r: &'static str)
        ensures
            self is Transport ==> r@ == "tcp connect failed"@,
            self is Handshake ==> r@ == "rdp connect failed"@,
    {
        match self {
            ProbeError::Transport(_) => "tcp connect failed",
            ProbeError::Handshake(_) => "rdp connect failed",
        }
    }

    /// The text of the underlying error, for diagnostics.
    pub fn cause(&self) -> (r: &str)
        ensures
            r@ == cause_of(*self),
    {
        match self {
            ProbeError::Transport(TransportError::InvalidAddress(c)) => c.as_str(),
            ProbeError::Transport(TransportError::Connect(c)) => c.as_str(),
            ProbeError::Transport(TransportError::NoDelay(c)) => c.as_str(),
            ProbeError::Handshake(c) => c.as_str(),
        }
    }
}

/// What the caller is asked to do next.
#[derive(Clone, Copy, Debug, PartialEq, Eq, Structural)]
pub enum Action {
    /// Parse the endpoint text into a socket address.
    ParseAddress,
    /// Open the transport to the parsed address, waiting at most
    /// `timeout_secs` seconds.
    Connect { timeout_secs: u64 },
    /// Switch off send coalescing on the open transport.
    SetNoDelay,
    /// Run the protocol engine's handshake over the transport, which it then
    /// owns.
    Handshake,
    /// Stop and report the outcome that the stage holds.
    Report,
}

/// The result of one step: `Ok` or the text of the error it met.
pub type StepResult = Result<(), String>;

/// Where a probe stands. Each step runs once; a failed step ends the probe.
#[derive(Debug, PartialEq, Eq)]
pub enum Stage {
    /// Waiting for the endpoint text to be parsed.
    ParseAddress,
    /// Waiting for the transport to open.
    Connect,
    /// Waiting for send coalescing to be switched off.
    SetNoDelay,
    /// Waiting for the handshake to complete.
    Handshake,
    /// Done, with this outcome.
    Finished(Result<(), ProbeError>),
}

/// The stage that follows `s` when its step gave `step`.
pub open spec fn next_stage(s: Stage, step: StepResult) -> Stage {
    match (s, step) {
        (Stage::ParseAddress, Ok(())) => Stage::Connect,
        (Stage::ParseAddress, Err(c)) => Stage::Finished(
            Err(ProbeError::Transport(TransportError::InvalidAddress(c))),
        ),
        (Stage::Connect, Ok(())) => Stage::SetNoDelay,
        (Stage::Connect, Err(c)) => Stage::Finished(
            Err(ProbeError::Transport(TransportError::Connect(c))),
        ),
        (Stage::SetNoDelay, Ok(())) => Stage::Handshake,
        (Stage::SetNoDelay, Err(c)) => Stage::Finished(
            Err(ProbeError::Transport(TransportError::NoDelay(c))),
        ),
        (Stage::Handshake, Ok(())) => Stage::Finished(Ok(())),
        (Stage::Handshake, Err(c)) => Stage::Finished(Err(ProbeError::Handshake(c))),
        (Stage::Finished(r), _) => Stage::Finished(r),
    }
}

/// The action asked for in stage `s`.
pub open spec fn stage_action(s: Stage) -> Action {
    match s {
        Stage::ParseAddress => Action::ParseAddress,
        Stage::Connect => Action::Connect { timeout_secs: CONNECT_TIMEOUT_SECS },
        Stage::SetNoDelay => Action::SetNoDelay,
        Stage::Handshake => Action::Handshake,
        Stage::Finished(_) => Action::Report,
    }
}

/// The stage reached from `s` by feeding it the step results in order;
/// results left over once the probe has finished are not read.
pub open spec fn run_from(s: Stage, results: Seq<StepResult>) -> Stage
    decreases results.len(),
{
    if results.len() == 0 || s is Finished {
        s
    } else {
        run_from(next_stage(s, results[0]), results.drop_first())
    }
}

/// The actions asked for from `s` on, as the step results come in.
pub open spec fn trace_from(s: Stage, results: Seq<StepResult>) -> Seq<Action>
    decreases results.len(),
{
    if results.len() == 0 || s is Finished {
        seq![stage_action(s)]
    } else {
        seq![stage_action(s)] + trace_from(next_stage(s, results[0]), results.drop_first())
    }
}

/// The stage of a probe whose steps gave `results`, in order.
pub open spec fn run(results: Seq<StepResult>) -> Stage {
    run_from(Stage::ParseAddress, results)
}

/// The actions that a probe whose steps gave `results` asks for, in order.
pub open spec fn trace(results: Seq<StepResult>) -> Seq<Action> {
    trace_from(Stage::ParseAddress, results)
}

/// The outcome of a probe whose address parse, connect, no-delay and
/// handshake steps gave these results: the first failed step decides, and
/// its error text is kept.
pub open spec fn classify(
    address: StepResult,
    connect: StepResult,
    no_delay: StepResult,
    handshake: StepResult,
) -> Result<(), ProbeError> {
    if address is Err {
        Err(ProbeError::Transport(TransportError::InvalidAddress(address->Err_0)))
    } else if connect is Err {
        Err(ProbeError::Transport(TransportError::Connect(connect->Err_0)))
    } else if no_delay is Err {
        Err(ProbeError::Transport(TransportError::NoDelay(no_delay->Err_0)))
    } else if handshake is Err {
        Err(ProbeError::Handshake(handshake->Err_0))
    } else {
        Ok(())
    }
}

/// Whether the action does network work.
pub open spec fn touches_network(a: Action) -> bool {
    a is Connect || a is SetNoDelay || a is Handshake
}

impl Stage {
    /// The stage of a probe that has not begun.
    pub fn start() -> (s: Stage)
        ensures
            s == Stage::ParseAddress,
    {
        Stage::ParseAddress
    }

    /// What the caller is asked to do in this stage.
    pub fn action(&self) -> (a: Action)
        ensures
            a == stage_action(*self),
    {
        match self {
            Stage::ParseAddress => Action::ParseAddress,
            Stage::Connect => Action::Connect { timeout_secs: CONNECT_TIMEOUT_SECS },
            Stage::SetNoDelay => Action::SetNoDelay,
            Stage::Handshake => Action::Handshake,
            Stage::Finished(_) => Action::Report,
        }
    }

    /// The stage after this one's step gave `step`; a failed step's error
    /// text lands in the outcome.
    pub fn advance(self, step: StepResult) -> (s: Stage)
        requires
            !(self is Finished),
        ensures
            s == next_stage(self, step),
    {
        match (self, step) {
            (Stage::ParseAddress, Ok(())) => Stage::Connect,
            (Stage::ParseAddress, Err(c)) => Stage::Finished(
                Err(ProbeError::Transport(TransportError::InvalidAddress(c))),
            ),
            (Stage::Connect, Ok(())) => Stage::SetNoDelay,
            (Stage::Connect, Err(c)) => Stage::Finished(
                Err(ProbeError::Transport(TransportError::Connect(c))),
            ),
            (Stage::SetNoDelay, Ok(())) => Stage::Handshake,
            (Stage::SetNoDelay, Err(c)) => Stage::Finished(
                Err(ProbeError::Transport(TransportError::NoDelay(c))),
            ),
            (Stage::Handshake, Ok(())) => Stage::Finished(Ok(())),
            (Stage::Handshake, Err(c)) => Stage::Finished(Err(ProbeError::Handshake(c))),
            (Stage::Finished(r), _) => Stage::Finished(r),
        }
    }

    /// Whether the probe has finished.
    pub fn is_finished(&self) -> (r: bool)
        ensures
            r == (*self is Finished),
    {
        matches!(self, Stage::Finished(_))
    }

    /// The outcome, once the probe has finished.
    pub fn into_outcome(self) -> (r: Option<Result<(), ProbeError>>)
        ensures
            self is Finished ==> r == Some(self->Finished_0),
            !(self is Finished) ==> r is None,
    {
        match self {
            Stage::Finished(o) => Some(o),
            _ => None,
        }
    }
}

} // verus!
