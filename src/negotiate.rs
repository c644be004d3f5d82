//! Choosing the framing protocol at connect time: the newer protocol is asked
//! for first, and the legacy one only when the server declares no sub-protocol.
use vstd::prelude::*;
use crate::protocol::ProtocolVersion;
use crate::text::join;

verus! {

/// Which framing a connection attempt asks the server for.
#[derive(Clone, Copy, Debug, PartialEq, Eq, Structural)]
pub enum Attempt {
    /// Declares the newer sub-protocol in the upgrade request.
    V2,
    /// Declares no sub-protocol.
    Legacy,
}

/// The body of a refused upgrade response.
#[derive(Clone, Debug)]
pub enum RejectionBody {
    /// The response had no body.
    Missing,
    /// The body held an error object; this is its `error` field.
    Parsed(String),
    /// The body was not an error object.
    Corrupt,
}

/// Why a connection attempt failed, as the transport connector reports it.
#[derive(Clone, Debug)]
pub enum ConnectFailure {
    /// The server accepted the upgrade but declared no sub-protocol.
    NoSubprotocol(String),
    /// The local socket could not be reached, or the target could not be addressed.
    Transport(String),
    /// The server refused the upgrade with this HTTP status.
    Rejected { status: String, body: RejectionBody },
    /// Any other failure of the upgrade handshake.
    Handshake(String),
}

/// A failure to open a console session.
#[derive(Clone, Debug)]
pub enum ConnectError {
    Connect(String),
    RemoteRejected(String),
    Protocol(String),
}

/// A connection error with its text as a sequence of characters.
pub enum ConnectErrorView {
    Connect(Seq<char>),
    RemoteRejected(Seq<char>),
    Protocol(Seq<char>),
}

impl View for ConnectError {
    type V = ConnectErrorView;

    open spec fn view(&self) -> ConnectErrorView {
        match self {
            ConnectError::Connect(m) => ConnectErrorView::Connect(m@),
            ConnectError::RemoteRejected(m) => ConnectErrorView::RemoteRejected(m@),
            ConnectError::Protocol(m) => ConnectErrorView::Protocol(m@),
        }
    }
}

/// What to do after an attempt.
#[derive(Clone, Debug)]
pub enum NegotiationStep {
    /// Open another connection, asking for this framing.
    Connect(Attempt),
    /// The connection is open with this framing.
    Open(ProtocolVersion),
    /// Give up with this error.
    Fail(ConnectError),
}

/// The framing that a successful attempt establishes.
pub open spec fn version_of(a: Attempt) -> ProtocolVersion {
    match a {
        Attempt::V2 => ProtocolVersion::V2,
        Attempt::Legacy => ProtocolVersion::Legacy,
    }
}

/// Whether a failed attempt is followed by a second one: only the first attempt,
/// and only when the server declared no sub-protocol.
pub open spec fn retries(a: Attempt, f: ConnectFailure) -> bool {
    a == Attempt::V2 && f is NoSubprotocol
}

/// The error reported for a failure that is not retried.
pub open spec fn error_of(f: ConnectFailure) -> ConnectErrorView {
    match f {
        ConnectFailure::Transport(d) => ConnectErrorView::Connect(
            "Error connecting to Unix domain socket! "@ + d@,
        ),
        ConnectFailure::Rejected { status, body } => match body {
            RejectionBody::Missing => ConnectErrorView::Protocol(
                "Failed to connect to WebSocket! "@ + status@,
            ),
            RejectionBody::Parsed(e) => ConnectErrorView::RemoteRejected(e@),
            RejectionBody::Corrupt => ConnectErrorView::Protocol(status@),
        },
        ConnectFailure::NoSubprotocol(d) => ConnectErrorView::Protocol(
            "Failed to connect to WebSocket! "@ + d@,
        ),
        ConnectFailure::Handshake(d) => ConnectErrorView::Protocol(
            "Failed to connect to WebSocket! "@ + d@,
        ),
    }
}

impl ConnectError {
    /// The text of this error.
    pub open spec fn message_spec(&self) -> Seq<char> {
        match self@ {
            ConnectErrorView::Connect(m) => m,
            ConnectErrorView::RemoteRejected(m) => m,
            ConnectErrorView::Protocol(m) => m,
        }
    }

    /// The text printed for this error.
    pub fn message(&self) -> (r: String)
        ensures
            r@ == self.message_spec(),
    {
        match self {
            ConnectError::Connect(m) => m.clone(),
            ConnectError::RemoteRejected(m) => m.clone(),
            ConnectError::Protocol(m) => m.clone(),
        }
    }
}

/// The error reported for `f`.
pub fn describe_failure(f: &ConnectFailure) -> (r: ConnectError)
    ensures
        r@ == error_of(*f),
{
    match f {
        ConnectFailure::Transport(d) => ConnectError::Connect(
            join("Error connecting to Unix domain socket! ", d.as_str()),
        ),
        ConnectFailure::Rejected { status, body } => match body {
            RejectionBody::Missing => ConnectError::Protocol(
                join("Failed to connect to WebSocket! ", status.as_str()),
            ),
            RejectionBody::Parsed(e) => ConnectError::RemoteRejected(e.clone()),
            RejectionBody::Corrupt => ConnectError::Protocol(status.clone()),
        },
        ConnectFailure::NoSubprotocol(d) => ConnectError::Protocol(
            join("Failed to connect to WebSocket! ", d.as_str()),
        ),
        ConnectFailure::Handshake(d) => ConnectError::Protocol(
            join("Failed to connect to WebSocket! ", d.as_str()),
        ),
    }
}

/// The attempt a session starts with.
pub fn first_attempt() -> (r: Attempt)
    ensures
        r == Attempt::V2,
{
    Attempt::V2
}

/// The step after `attempt` ended with `result`: open with the attempt's framing
/// on success, retry under the legacy framing where the server declared no
/// sub-protocol to the first attempt, and fail with the described error otherwise.
pub fn after_attempt(attempt: Attempt, result: &Result<(), ConnectFailure>) -> (r: NegotiationStep)
    ensures
        match *result {
            Ok(()) => r == NegotiationStep::Open(version_of(attempt)),
            Err(f) => if retries(attempt, f) {
                r == NegotiationStep::Connect(Attempt::Legacy)
            } else {
                r is Fail && r->Fail_0@ == error_of(f)
            },
        },
{
    match result {
        Ok(()) => match attempt {
            Attempt::V2 => NegotiationStep::Open(ProtocolVersion::V2),
            Attempt::Legacy => NegotiationStep::Open(ProtocolVersion::Legacy),
        },
        Err(f) => match (attempt, f) {
            (Attempt::V2, ConnectFailure::NoSubprotocol(_)) => NegotiationStep::Connect(
                Attempt::Legacy,
            ),
            _ => NegotiationStep::Fail(describe_failure(f)),
        },
    }
}

/// How many connections the negotiator opens, starting from attempt `a`, when
/// the successive attempts end as `outcomes` says.
pub open spec fn connections_opened(a: Attempt, outcomes: Seq<Result<(), ConnectFailure>>) -> nat
    decreases outcomes.len(),
{
    if outcomes.len() == 0 {
        0
    } else {
        match outcomes[0] {
            Err(f) => if retries(a, f) {
                1 + connections_opened(Attempt::Legacy, outcomes.drop_first())
            } else {
                1
            },
            Ok(()) => 1,
        }
    }
}

/// A session opens at most two connections, one after the other: after a
/// "no sub-protocol" answer to the first attempt it retries exactly once, under
/// the legacy framing, and it never retries after any other failure or after
/// the legacy attempt.
pub proof fn lemma_retries_at_most_once(outcomes: Seq<Result<(), ConnectFailure>>, f: ConnectFailure)
    ensures
        connections_opened(Attempt::V2, outcomes) <= 2,
        retries(Attempt::V2, f) <==> f is NoSubprotocol,
        !retries(Attempt::Legacy, f),
        outcomes.len() >= 2 && outcomes[0] is Err && outcomes[0]->Err_0 is NoSubprotocol
            ==> connections_opened(Attempt::V2, outcomes) == 2,
{
    if outcomes.len() > 0 {
        let rest = outcomes.drop_first();
        if rest.len() > 0 {
            assert(connections_opened(Attempt::Legacy, rest) == 1);
        } else {
            assert(connections_opened(Attempt::Legacy, rest) == 0);
        }
    }
}

} // verus!
