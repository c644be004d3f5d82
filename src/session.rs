//! The console session: a state machine that turns local input, keepalive
//! ticks, inbound notices and cancellation into writes, printed lines and one
//! exit outcome, followed by a close handshake.
use vstd::prelude::*;
use crate::negotiate::ConnectError;
use crate::protocol::{
    decode_envelope, encode, encode_spec, envelope_json, ConsoleMessage, LogicalMessage,
    MessageView, ProtocolVersion,
};
use crate::text::{decimal, decimal_spec, join, trim_end, trim_end_spec};

verus! {

/// The life of a session.
#[derive(Clone, Copy, Debug, PartialEq, Eq, Structural)]
pub enum Phase {
    Connecting,
    Negotiating,
    Open,
    Closing,
    Closed,
}

/// The exit outcome: a status code and the diagnostic printed when it is not zero.
#[derive(Clone, Debug)]
pub struct Outcome {
    pub status: i32,
    pub message: String,
}

/// What the reader hands to the session loop.
#[derive(Clone, Debug)]
pub enum Notice {
    /// A decoded message.
    Message(LogicalMessage),
    /// The remote sent a close frame.
    CloseFrame,
    /// Reading from the connection failed.
    ReadError(String),
    /// An envelope of the newer protocol could not be parsed.
    Corrupt(String),
    /// The connection ended with no further frames.
    EndOfStream,
}

/// One event of the session loop; whichever source is ready first supplies it.
#[derive(Clone, Debug)]
pub enum Event {
    /// A line of local input.
    Line(String),
    /// Reading local input failed.
    InputFailed(String),
    /// The keepalive timer fired at this wall-clock time, in milliseconds.
    Tick(u64),
    /// The reader delivered a notice.
    Inbound(Notice),
    /// Writing to the connection failed.
    WriteFailed(String),
    /// The user interrupted.
    Cancel,
}

/// What the loop does in answer to an event.
#[derive(Clone, Debug)]
pub enum Action {
    Idle,
    /// Send this text frame.
    Write(String),
    /// Print this line.
    Print(String),
    /// The outcome is decided: run the close sequence.
    Shutdown,
}

/// An action with its text as a sequence of characters.
pub enum ActionView {
    Idle,
    Write(Seq<char>),
    Print(Seq<char>),
    Shutdown,
}

impl View for Action {
    type V = ActionView;

    open spec fn view(&self) -> ActionView {
        match self {
            Action::Idle => ActionView::Idle,
            Action::Write(t) => ActionView::Write(t@),
            Action::Print(t) => ActionView::Print(t@),
            Action::Shutdown => ActionView::Shutdown,
        }
    }
}

/// A session as a mathematical value.
pub struct SessionView {
    pub phase: Phase,
    pub version: Option<ProtocolVersion>,
    pub interactive: bool,
    pub outcome: Option<(i32, Seq<char>)>,
}

/// A console session. The outcome is decided exactly once, on leaving `Open`
/// (or on a failed negotiation), and the close handshake can only turn a clean
/// outcome into a failure.
pub struct Session {
    phase: Phase,
    version: Option<ProtocolVersion>,
    interactive: bool,
    outcome: Option<Outcome>,
}

impl View for Session {
    type V = SessionView;

    closed spec fn view(&self) -> SessionView {
        SessionView {
            phase: self.phase,
            version: self.version,
            interactive: self.interactive,
            outcome: match self.outcome {
                Some(o) => Some((o.status, o.message@)),
                None => None,
            },
        }
    }
}

/// The session invariant: an outcome exists exactly from `Closing` on, and an
/// open session knows its framing.
pub open spec fn session_wf(s: SessionView) -> bool {
    &&& (s.outcome is Some <==> (s.phase == Phase::Closing || s.phase == Phase::Closed))
    &&& (s.phase == Phase::Open ==> s.version is Some)
}

/// Leave `Open` with the given outcome.
pub open spec fn close_with(s: SessionView, status: i32, message: Seq<char>) -> (SessionView, ActionView) {
    (SessionView { phase: Phase::Closing, outcome: Some((status, message)), ..s }, ActionView::Shutdown)
}

/// The session's answer to an inbound notice while open.
pub open spec fn on_notice(s: SessionView, n: Notice) -> (SessionView, ActionView) {
    match n {
        Notice::Message(m) => match m@ {
            MessageView::Output(t) => (s, ActionView::Print(trim_end_spec(t))),
            MessageView::Error(t) => close_with(s, 1, "Error: "@ + t),
            _ => (s, ActionView::Idle),
        },
        Notice::CloseFrame => close_with(s, 1, "Read error: Received close message from Octyne!"@),
        Notice::ReadError(d) => close_with(s, 1, "Read error: "@ + d@),
        Notice::Corrupt(d) => close_with(s, 1, "Error: Received corrupt message from Octyne! "@ + d@),
        Notice::EndOfStream => close_with(s, 0, "Console closed by remote."@),
    }
}

/// The keepalive envelope for a tick at `millis`.
pub open spec fn ping_json(millis: u64) -> Seq<char> {
    envelope_json("ping"@, Seq::empty(), Seq::empty(), decimal_spec(millis as nat))
}

/// One step of the session loop. Outside `Open` every event is ignored.
pub open spec fn step(s: SessionView, e: Event) -> (SessionView, ActionView) {
    if s.phase != Phase::Open {
        (s, ActionView::Idle)
    } else {
        match e {
            Event::Line(l) => if l@.len() == 0 {
                (s, ActionView::Idle)
            } else {
                (s, ActionView::Write(encode_spec(MessageView::Input(l@), s.version->Some_0)->Some_0))
            },
            Event::InputFailed(d) => close_with(s, 1, "Write error: "@ + d@),
            Event::Tick(ms) => if s.version == Some(ProtocolVersion::V2) {
                (s, ActionView::Write(ping_json(ms)))
            } else {
                (s, ActionView::Idle)
            },
            Event::Inbound(n) => on_notice(s, n),
            Event::WriteFailed(d) => close_with(s, 1, "Write error: "@ + d@),
            Event::Cancel => close_with(s, 0, Seq::empty()),
        }
    }
}

/// The session after a sequence of events.
pub open spec fn run(s: SessionView, events: Seq<Event>) -> SessionView
    decreases events.len(),
{
    if events.len() == 0 {
        s
    } else {
        run(step(s, events[0]).0, events.drop_first())
    }
}

/// The close code a session closes with: normal closure.
pub const CLOSE_CODE: u16 = 1000;

/// The reason text of the close frame a session sends.
pub const CLOSE_REASON: &'static str = "Done";

/// How one step of the close handshake (sending the close frame, closing the
/// write half) went.
#[derive(Clone, Debug)]
pub enum CloseResult {
    Done,
    /// The connection had already ended (the remote closed it, or the
    /// transport was dropped), so there was nothing left to close.
    AlreadyClosed,
    /// The step failed for this reason.
    Failed(String),
}

/// The outcome after one step of the close handshake ended with `r`: a failure
/// replaces a clean outcome and is ignored after a failed one; a connection
/// that had already ended leaves the outcome as it is.
pub open spec fn masked(outcome: Option<(i32, Seq<char>)>, r: CloseResult) -> Option<(i32, Seq<char>)> {
    match (outcome, r) {
        (Some((0, _)), CloseResult::Failed(e)) => Some((1, "Close error: "@ + e@)),
        _ => outcome,
    }
}

/// The session after the close frame was sent with result `r`.
pub open spec fn after_close_frame(s: SessionView, r: CloseResult) -> SessionView {
    if s.phase == Phase::Closing {
        SessionView { outcome: masked(s.outcome, r), ..s }
    } else {
        s
    }
}

/// The session after the write half was closed with result `r`.
pub open spec fn after_writer_close(s: SessionView, r: CloseResult) -> SessionView {
    if s.phase == Phase::Closing {
        SessionView { phase: Phase::Closed, outcome: masked(s.outcome, r), ..s }
    } else {
        s
    }
}

/// The whole close handshake.
pub open spec fn close_sequence(s: SessionView, frame: CloseResult, writer: CloseResult) -> SessionView {
    after_writer_close(after_close_frame(s, frame), writer)
}

/// The line printed when a failure of the close handshake becomes the outcome.
pub open spec fn close_report(s: SessionView, r: CloseResult) -> ActionView {
    match (s.phase, s.outcome, r) {
        (Phase::Closing, Some((0, _)), CloseResult::Failed(e)) => ActionView::Print(
            "Close error: "@ + e@,
        ),
        _ => ActionView::Idle,
    }
}

/// Outside `Open` no sequence of events changes a session: in particular, once
/// the outcome is decided, later events (a read or write that completes after a
/// cancellation, a late tick) leave it as it is.
pub proof fn lemma_outcome_decided_once(s: SessionView, events: Seq<Event>)
    requires
        s.phase != Phase::Open,
    ensures
        run(s, events) == s,
    decreases events.len(),
{
    if events.len() > 0 {
        lemma_outcome_decided_once(step(s, events[0]).0, events.drop_first());
    }
}

/// Running the close sequence on a connection that has already ended keeps
/// the exit status already decided; so does running it again once the session
/// is closed; and no step of it changes an outcome that is already a failure.
pub proof fn lemma_close_idempotent(s: SessionView, frame: CloseResult, writer: CloseResult)
    requires
        session_wf(s),
    ensures
        close_sequence(s, CloseResult::AlreadyClosed, CloseResult::AlreadyClosed) == (if s.phase
            == Phase::Closing {
            SessionView { phase: Phase::Closed, ..s }
        } else {
            s
        }),
        !(frame is Failed) && !(writer is Failed) ==> close_sequence(s, frame, writer).outcome
            == s.outcome,
        s.phase == Phase::Closed ==> close_sequence(s, frame, writer) == s,
        s.outcome is Some && s.outcome->Some_0.0 != 0 ==> close_sequence(s, frame, writer).outcome
            == s.outcome,
        close_sequence(close_sequence(s, frame, writer), frame, writer) == close_sequence(
            s,
            frame,
            writer,
        ),
{
}

/// A keepalive is written only by an open session that speaks the newer
/// protocol; no event changes a session's protocol, so a legacy session never
/// writes one.
pub proof fn lemma_keepalive_only_open_v2(s: SessionView, millis: u64, e: Event)
    ensures
        (s.phase != Phase::Open || s.version != Some(ProtocolVersion::V2)) ==> step(
            s,
            Event::Tick(millis),
        ).1 == ActionView::Idle,
        (s.phase == Phase::Open && s.version == Some(ProtocolVersion::V2)) ==> step(
            s,
            Event::Tick(millis),
        ).1 == ActionView::Write(ping_json(millis)),
        step(s, e).0.version == s.version,
{
}

/// Cancelling an open session decides a clean outcome with no diagnostic, which
/// no later event changes; unless a step of the close handshake then fails on
/// a connection that was still open, the process exits with status 0.
pub proof fn lemma_cancel_is_clean(s: SessionView, later: Seq<Event>, frame: CloseResult, writer: CloseResult)
    requires
        session_wf(s),
        s.phase == Phase::Open,
        !(frame is Failed),
        !(writer is Failed),
    ensures
        step(s, Event::Cancel).1 == ActionView::Shutdown,
        step(s, Event::Cancel).0.outcome == Some((0i32, Seq::<char>::empty())),
        run(step(s, Event::Cancel).0, later) == step(s, Event::Cancel).0,
        close_sequence(step(s, Event::Cancel).0, frame, writer).outcome == Some(
            (0i32, Seq::<char>::empty()),
        ),
        close_sequence(step(s, Event::Cancel).0, frame, writer).phase == Phase::Closed,
{
    lemma_outcome_decided_once(step(s, Event::Cancel).0, later);
}

fn close_error(e: &String) -> (r: Outcome)
    ensures
        r.status == 1,
        r.message@ == "Close error: "@ + e@,
{
    Outcome { status: 1, message: join("Close error: ", e.as_str()) }
}

impl Session {
    #[verifier::type_invariant]
    closed spec fn inv(&self) -> bool {
        session_wf(self@)
    }

    /// A session about to connect; `interactive` says whether the full-screen
    /// mode was entered for it.
    pub fn new(interactive: bool) -> (r: Session)
        ensures
            r@ == (SessionView { phase: Phase::Connecting, version: None, interactive, outcome: None }),
    {
        Session { phase: Phase::Connecting, version: None, interactive, outcome: None }
    }

    /// Where the session is in its life.
    pub fn phase(&self) -> (r: Phase)
        ensures
            r == self@.phase,
    {
        self.phase
    }

    /// The framing negotiated for the session, once it is open.
    pub fn version(&self) -> (r: Option<ProtocolVersion>)
        ensures
            r == self@.version,
    {
        self.version
    }

    /// The exit outcome, once it is decided.
    pub fn outcome(&self) -> (r: Option<Outcome>)
        ensures
            match r {
                Some(o) => self@.outcome == Some((o.status, o.message@)),
                None => self@.outcome is None,
            },
    {
        match &self.outcome {
            Some(o) => Some(Outcome { status: o.status, message: o.message.clone() }),
            None => None,
        }
    }

    /// The upgrade handshake has begun.
    pub fn begin_negotiation(&mut self)
        ensures
            final(self)@ == (if old(self)@.phase == Phase::Connecting {
                SessionView { phase: Phase::Negotiating, ..old(self)@ }
            } else {
                old(self)@
            }),
    {
        proof {
            use_type_invariant(&*self);
        }
        if self.phase == Phase::Connecting {
            self.phase = Phase::Negotiating;
        }
    }

    /// The connection is open with framing `version`.
    pub fn opened(&mut self, version: ProtocolVersion)
        ensures
            final(self)@ == (if old(self)@.phase == Phase::Negotiating {
                SessionView { phase: Phase::Open, version: Some(version), ..old(self)@ }
            } else {
                old(self)@
            }),
    {
        proof {
            use_type_invariant(&*self);
        }
        if self.phase == Phase::Negotiating {
            *self = Session {
                phase: Phase::Open,
                version: Some(version),
                interactive: self.interactive,
                outcome: None,
            };
        }
    }

    /// Negotiation failed: the session ends with status 1 and the error's text.
    pub fn connect_failed(&mut self, err: &ConnectError) -> (r: Action)
        ensures
            (old(self)@.phase == Phase::Connecting || old(self)@.phase == Phase::Negotiating) ==> {
                &&& final(self)@ == (SessionView {
                    phase: Phase::Closed,
                    outcome: Some((1i32, "Error: "@ + err.message_spec())),
                    ..old(self)@
                })
                &&& r@ == ActionView::Print("Error: "@ + err.message_spec())
            },
            !(old(self)@.phase == Phase::Connecting || old(self)@.phase == Phase::Negotiating) ==> {
                &&& final(self)@ == old(self)@
                &&& r@ == ActionView::Idle
            },
    {
        proof {
            use_type_invariant(&*self);
        }
        if self.phase == Phase::Connecting || self.phase == Phase::Negotiating {
            let m = join("Error: ", err.message().as_str());
            *self = Session {
                phase: Phase::Closed,
                version: self.version,
                interactive: self.interactive,
                outcome: Some(Outcome { status: 1, message: m.clone() }),
            };
            Action::Print(m)
        } else {
            Action::Idle
        }
    }

    /// Answer one event of the loop.
    pub fn handle(&mut self, e: Event) -> (r: Action)
        ensures
            (final(self)@, r@) == step(old(self)@, e),
            session_wf(old(self)@),
            session_wf(final(self)@),
    {
        proof {
            use_type_invariant(&*self);
        }
        if self.phase != Phase::Open {
            return Action::Idle;
        }
        let version = match self.version {
            Some(v) => v,
            None => ProtocolVersion::Legacy,
        };
        match e {
            Event::Line(l) => {
                if l.as_str().is_empty() {
                    Action::Idle
                } else {
                    match encode(&LogicalMessage::Input(l), version) {
                        Some(t) => Action::Write(t),
                        None => Action::Idle,
                    }
                }
            },
            Event::InputFailed(d) => self.close(1, join("Write error: ", d.as_str())),
            Event::Tick(ms) => {
                if version == ProtocolVersion::V2 {
                    let ping = ConsoleMessage {
                        kind: String::from_str("ping"),
                        data: String::new(),
                        message: String::new(),
                        id: decimal(ms),
                    };
                    Action::Write(ping.to_json())
                } else {
                    Action::Idle
                }
            },
            Event::Inbound(n) => match n {
                Notice::Message(m) => match m {
                    LogicalMessage::Output(t) => Action::Print(trim_end(t.as_str())),
                    LogicalMessage::Error(t) => self.close(1, join("Error: ", t.as_str())),
                    _ => Action::Idle,
                },
                Notice::CloseFrame => self.close(
                    1,
                    String::from_str("Read error: Received close message from Octyne!"),
                ),
                Notice::ReadError(d) => self.close(1, join("Read error: ", d.as_str())),
                Notice::Corrupt(d) => self.close(
                    1,
                    join("Error: Received corrupt message from Octyne! ", d.as_str()),
                ),
                Notice::EndOfStream => self.close(0, String::from_str("Console closed by remote.")),
            },
            Event::WriteFailed(d) => self.close(1, join("Write error: ", d.as_str())),
            Event::Cancel => self.close(0, String::new()),
        }
    }

    fn close(&mut self, status: i32, message: String) -> (r: Action)
        requires
            old(self)@.phase == Phase::Open,
        ensures
            (final(self)@, r@) == close_with(old(self)@, status, message@),
            session_wf(final(self)@),
    {
        proof {
            use_type_invariant(&*self);
        }
        *self = Session {
            phase: Phase::Closing,
            version: self.version,
            interactive: self.interactive,
            outcome: Some(Outcome { status, message }),
        };
        Action::Shutdown
    }

    /// Whether the full-screen mode must be left before anything is reported.
    pub fn leaves_screen(&self) -> (r: bool)
        ensures
            r == self@.interactive,
    {
        self.interactive
    }

    /// The diagnostic to print on shutdown: the outcome's message when its
    /// status is not zero.
    pub fn diagnostic(&self) -> (r: Option<String>)
        ensures
            match r {
                Some(m) => self@.outcome is Some && self@.outcome->Some_0.0 != 0
                    && m@ == self@.outcome->Some_0.1,
                None => self@.outcome is None || self@.outcome->Some_0.0 == 0,
            },
    {
        match &self.outcome {
            Some(o) => if o.status != 0 {
                Some(o.message.clone())
            } else {
                None
            },
            None => None,
        }
    }

    fn mask(&mut self, r: CloseResult) -> (a: Action)
        requires
            old(self)@.phase == Phase::Closing,
        ensures
            final(self)@ == (SessionView { outcome: masked(old(self)@.outcome, r), ..old(self)@ }),
            a@ == close_report(old(self)@, r),
    {
        let clean = match &self.outcome {
            Some(o) => o.status == 0,
            None => false,
        };
        match r {
            CloseResult::Failed(e) => {
                if clean {
                    let o = close_error(&e);
                    let m = o.message.clone();
                    self.outcome = Some(o);
                    Action::Print(m)
                } else {
                    Action::Idle
                }
            },
            CloseResult::Done | CloseResult::AlreadyClosed => Action::Idle,
        }
    }

    /// Record how sending the close frame went; where a failure becomes the
    /// outcome, the line to print.
    pub fn close_frame_sent(&mut self, r: CloseResult) -> (a: Action)
        ensures
            final(self)@ == after_close_frame(old(self)@, r),
            a@ == close_report(old(self)@, r),
            session_wf(final(self)@),
    {
        proof {
            use_type_invariant(&*self);
        }
        if self.phase != Phase::Closing {
            return Action::Idle;
        }
        self.mask(r)
    }

    /// Record how closing the write half went; the session is then closed.
    pub fn writer_closed(&mut self, r: CloseResult) -> (a: Action)
        ensures
            final(self)@ == after_writer_close(old(self)@, r),
            a@ == close_report(old(self)@, r),
            session_wf(final(self)@),
    {
        proof {
            use_type_invariant(&*self);
        }
        if self.phase != Phase::Closing {
            return Action::Idle;
        }
        let a = self.mask(r);
        self.phase = Phase::Closed;
        a
    }

    /// The process exit status: the outcome's status, once it is decided.
    pub fn exit_status(&self) -> (r: Option<i32>)
        ensures
            match self@.outcome {
                Some(o) => r == Some(o.0),
                None => r is None,
            },
    {
        match &self.outcome {
            Some(o) => Some(o.status),
            None => None,
        }
    }
}

} // verus!
