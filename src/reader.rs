//! The reader side of a session: turns frames from the connection into
//! notices for the session loop, and stops after the first terminal one.
use vstd::prelude::*;
use crate::protocol::{
    decode_envelope, decode_legacy, decode_spec, ConsoleMessage, LogicalMessage, MessageView,
    ProtocolVersion,
};
use crate::session::Notice;
use crate::text::join;

verus! {

/// A frame read from the connection.
#[derive(Debug)]
pub enum Frame {
    /// A text frame.
    Text(String),
    /// A close frame.
    Close,
    /// Any other frame, with its payload as text or the reason it is not text.
    Other(Result<String, String>),
}

/// What the reader is handed: a frame, a parsed envelope it asked for, a read
/// failure, or the end of the stream.
#[derive(Debug)]
pub enum ReaderInput {
    Frame(Frame),
    Envelope(Result<ConsoleMessage, String>),
    Failed(String),
    End,
}

/// What the reader does next.
#[derive(Clone, Debug)]
pub enum ReaderStep {
    /// Read the next frame.
    ReadNext,
    /// Parse this payload as an envelope and hand back the result.
    Parse(String),
    /// Hand this notice to the session loop.
    Deliver(Notice),
    /// The reader has finished.
    Stop,
}

/// A notice after which the reader delivers nothing more.
pub open spec fn is_terminal(n: Notice) -> bool {
    match n {
        Notice::Message(m) => m is Error,
        _ => true,
    }
}

/// The reader of one session.
pub struct Reader {
    pub version: ProtocolVersion,
    pub done: bool,
}

/// The reader's answer to `input`, and whether it is done afterwards.
pub open spec fn reader_step(version: ProtocolVersion, done: bool, input: ReaderInput) -> (ReaderStepView, bool) {
    if done {
        (ReaderStepView::Stop, true)
    } else {
        match input {
            ReaderInput::Frame(Frame::Text(t)) => match version {
                ProtocolVersion::Legacy => (ReaderStepView::DeliverOutput(t@), false),
                ProtocolVersion::V2 => (ReaderStepView::Parse(t@), false),
            },
            ReaderInput::Frame(Frame::Close) => (ReaderStepView::DeliverOther(Notice::CloseFrame), true),
            ReaderInput::Frame(Frame::Other(p)) => match version {
                ProtocolVersion::V2 => (ReaderStepView::ReadNext, false),
                ProtocolVersion::Legacy => match p {
                    Ok(t) => (ReaderStepView::DeliverOutput(t@), false),
                    Err(e) => (ReaderStepView::DeliverOther(Notice::ReadError(e)), true),
                },
            },
            ReaderInput::Envelope(Ok(env)) => match decode_spec(env.kind@, env.data@, env.message@, env.id@) {
                Some(m) => (ReaderStepView::DeliverMessage(m), m is Error),
                None => (ReaderStepView::ReadNext, false),
            },
            ReaderInput::Envelope(Err(e)) => (ReaderStepView::DeliverOther(Notice::Corrupt(e)), true),
            ReaderInput::Failed(e) => (ReaderStepView::DeliverOther(Notice::ReadError(e)), true),
            ReaderInput::End => (ReaderStepView::DeliverOther(Notice::EndOfStream), true),
        }
    }
}

/// A reader step as a mathematical value: a delivered message is given by its
/// view, any other notice as it is.
pub enum ReaderStepView {
    ReadNext,
    Parse(Seq<char>),
    DeliverOutput(Seq<char>),
    DeliverMessage(MessageView),
    DeliverOther(Notice),
    Stop,
}

/// Whether the executable step `r` is the one that `v` describes.
pub open spec fn step_matches(r: ReaderStep, v: ReaderStepView) -> bool {
    match v {
        ReaderStepView::ReadNext => r is ReadNext,
        ReaderStepView::Parse(t) => r is Parse && r->Parse_0@ == t,
        ReaderStepView::DeliverOutput(t) => r is Deliver && r->Deliver_0 is Message
            && r->Deliver_0->Message_0@ == MessageView::Output(t),
        ReaderStepView::DeliverMessage(m) => r is Deliver && r->Deliver_0 is Message
            && r->Deliver_0->Message_0@ == m,
        ReaderStepView::DeliverOther(n) => r == ReaderStep::Deliver(n),
        ReaderStepView::Stop => r is Stop,
    }
}

/// An envelope whose type is none of output, error, input and ping is dropped:
/// the reader delivers nothing, stays running and reads on, so the session
/// stays as it is.
pub proof fn lemma_unknown_type_ignored(env: ConsoleMessage)
    requires
        env.kind@ != "output"@,
        env.kind@ != "error"@,
        env.kind@ != "input"@,
        env.kind@ != "ping"@,
    ensures
        reader_step(ProtocolVersion::V2, false, ReaderInput::Envelope(Ok(env))) == (
            ReaderStepView::ReadNext,
            false,
        ),
{
}

impl Reader {
    /// A reader for a connection with framing `version`.
    pub fn new(version: ProtocolVersion) -> (r: Reader)
        ensures
            r.version == version,
            !r.done,
    {
        Reader { version, done: false }
    }

    /// Take one input and say what to do next.
    pub fn step(&mut self, input: ReaderInput) -> (r: ReaderStep)
        ensures
            final(self).version == old(self).version,
            step_matches(r, reader_step(old(self).version, old(self).done, input).0),
            final(self).done == reader_step(old(self).version, old(self).done, input).1,
    {
        if self.done {
            return ReaderStep::Stop;
        }
        match input {
            ReaderInput::Frame(Frame::Text(t)) => match self.version {
                ProtocolVersion::Legacy => ReaderStep::Deliver(Notice::Message(decode_legacy(t))),
                ProtocolVersion::V2 => ReaderStep::Parse(t),
            },
            ReaderInput::Frame(Frame::Close) => {
                self.done = true;
                ReaderStep::Deliver(Notice::CloseFrame)
            },
            ReaderInput::Frame(Frame::Other(p)) => match self.version {
                ProtocolVersion::V2 => ReaderStep::ReadNext,
                ProtocolVersion::Legacy => match p {
                    Ok(t) => ReaderStep::Deliver(Notice::Message(decode_legacy(t))),
                    Err(e) => {
                        self.done = true;
                        ReaderStep::Deliver(Notice::ReadError(e))
                    },
                },
            },
            ReaderInput::Envelope(Ok(env)) => match decode_envelope(&env) {
                Some(m) => {
                    let stop = match &m {
                        LogicalMessage::Error(_) => true,
                        _ => false,
                    };
                    self.done = stop;
                    ReaderStep::Deliver(Notice::Message(m))
                },
                None => ReaderStep::ReadNext,
            },
            ReaderInput::Envelope(Err(e)) => {
                self.done = true;
                ReaderStep::Deliver(Notice::Corrupt(e))
            },
            ReaderInput::Failed(e) => {
                self.done = true;
                ReaderStep::Deliver(Notice::ReadError(e))
            },
            ReaderInput::End => {
                self.done = true;
                ReaderStep::Deliver(Notice::EndOfStream)
            },
        }
    }
}

/// What fetching the logs does next: the logs are the first output message.
#[derive(Clone, Debug)]
pub enum LogsStep {
    ReadNext,
    /// Parse this payload as an envelope and hand back the result.
    Parse(String),
    /// These are the logs.
    Done(String),
    /// Print this message and exit with status 1.
    Fail(String),
}

/// A step of the log fetch as a mathematical value.
pub enum LogsStepView {
    ReadNext,
    Parse(Seq<char>),
    Done(Seq<char>),
    Fail(Seq<char>),
}

impl View for LogsStep {
    type V = LogsStepView;

    open spec fn view(&self) -> LogsStepView {
        match self {
            LogsStep::ReadNext => LogsStepView::ReadNext,
            LogsStep::Parse(t) => LogsStepView::Parse(t@),
            LogsStep::Done(t) => LogsStepView::Done(t@),
            LogsStep::Fail(t) => LogsStepView::Fail(t@),
        }
    }
}

/// The answer to `input` while waiting for the logs.
pub open spec fn logs_spec(version: ProtocolVersion, input: ReaderInput) -> LogsStepView {
    match input {
        ReaderInput::Frame(Frame::Text(t)) => match version {
            ProtocolVersion::Legacy => LogsStepView::Done(t@),
            ProtocolVersion::V2 => LogsStepView::Parse(t@),
        },
        ReaderInput::Frame(Frame::Close) => LogsStepView::Fail(
            "Error: Received close message from Octyne!"@,
        ),
        ReaderInput::Frame(Frame::Other(p)) => match version {
            ProtocolVersion::V2 => LogsStepView::ReadNext,
            ProtocolVersion::Legacy => match p {
                Ok(t) => LogsStepView::Done(t@),
                Err(e) => LogsStepView::Fail("Error: "@ + e@),
            },
        },
        ReaderInput::Envelope(Ok(env)) => match decode_spec(env.kind@, env.data@, env.message@, env.id@) {
            Some(MessageView::Output(t)) => LogsStepView::Done(t),
            Some(MessageView::Error(m)) => LogsStepView::Fail("Error: "@ + m),
            _ => LogsStepView::ReadNext,
        },
        ReaderInput::Envelope(Err(e)) => LogsStepView::Fail(
            "Error: Received corrupt message from Octyne! "@ + e@,
        ),
        ReaderInput::Failed(e) => LogsStepView::Fail("Error: "@ + e@),
        ReaderInput::End => LogsStepView::Fail("Error: Received no message from Octyne!"@),
    }
}

/// Take one input while waiting for the logs.
pub fn logs_step(version: ProtocolVersion, input: ReaderInput) -> (r: LogsStep)
    ensures
        r@ == logs_spec(version, input),
{
    match input {
        ReaderInput::Frame(Frame::Text(t)) => match version {
            ProtocolVersion::Legacy => LogsStep::Done(t),
            ProtocolVersion::V2 => LogsStep::Parse(t),
        },
        ReaderInput::Frame(Frame::Close) => LogsStep::Fail(
            String::from_str("Error: Received close message from Octyne!"),
        ),
        ReaderInput::Frame(Frame::Other(p)) => match version {
            ProtocolVersion::V2 => LogsStep::ReadNext,
            ProtocolVersion::Legacy => match p {
                Ok(t) => LogsStep::Done(t),
                Err(e) => LogsStep::Fail(join("Error: ", e.as_str())),
            },
        },
        ReaderInput::Envelope(Ok(env)) => match decode_envelope(&env) {
            Some(LogicalMessage::Output(t)) => LogsStep::Done(t),
            Some(LogicalMessage::Error(m)) => LogsStep::Fail(join("Error: ", m.as_str())),
            _ => LogsStep::ReadNext,
        },
        ReaderInput::Envelope(Err(e)) => LogsStep::Fail(
            join("Error: Received corrupt message from Octyne! ", e.as_str()),
        ),
        ReaderInput::Failed(e) => LogsStep::Fail(join("Error: ", e.as_str())),
        ReaderInput::End => LogsStep::Fail(String::from_str("Error: Received no message from Octyne!")),
    }
}

} // verus!
