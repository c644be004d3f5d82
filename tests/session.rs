use octynectl::negotiate::ConnectError;
use octynectl::protocol::{LogicalMessage, ProtocolVersion};
use octynectl::reader::{Frame, Reader, ReaderInput, ReaderStep};
use octynectl::session::{Action, CloseResult, Event, Notice, Phase, Session, CLOSE_CODE, CLOSE_REASON};

fn open_session(version: ProtocolVersion, interactive: bool) -> Session {
    let mut s = Session::new(interactive);
    s.begin_negotiation();
    s.opened(version);
    s
}

fn printed(a: Action) -> String {
    match a {
        Action::Print(t) => t,
        other => panic!("expected a printed line, got {:?}", other),
    }
}

fn written(a: Action) -> String {
    match a {
        Action::Write(t) => t,
        other => panic!("expected a write, got {:?}", other),
    }
}

fn outcome(s: &Session) -> (i32, String) {
    let o = s.outcome().expect("outcome decided");
    (o.status, o.message)
}

#[test]
fn legacy_raw_text_frame_is_printed() {
    let mut reader = Reader::new(ProtocolVersion::Legacy);
    let notice = match reader.step(ReaderInput::Frame(Frame::Text("hello".to_string()))) {
        ReaderStep::Deliver(n) => n,
        other => panic!("unexpected {:?}", other),
    };
    let mut s = open_session(ProtocolVersion::Legacy, false);
    assert_eq!(printed(s.handle(Event::Inbound(notice))), "hello");
    assert_eq!(s.phase(), Phase::Open);
}

#[test]
fn v2_output_envelope_is_printed_trimmed() {
    let mut s = open_session(ProtocolVersion::V2, false);
    let n = Notice::Message(LogicalMessage::Output("hello\n".to_string()));
    assert_eq!(printed(s.handle(Event::Inbound(n))), "hello");
    let n = Notice::Message(LogicalMessage::Output("  indented \t\r\n".to_string()));
    assert_eq!(printed(s.handle(Event::Inbound(n))), "  indented");
    assert_eq!(s.phase(), Phase::Open);
    assert!(s.outcome().is_none());
}

#[test]
fn v2_error_envelope_closes_with_failure() {
    let mut s = open_session(ProtocolVersion::V2, true);
    let n = Notice::Message(LogicalMessage::Error("boom".to_string()));
    assert!(matches!(s.handle(Event::Inbound(n)), Action::Shutdown));
    assert_eq!(s.phase(), Phase::Closing);
    assert_eq!(outcome(&s), (1, "Error: boom".to_string()));
    assert!(s.leaves_screen());
    assert_eq!(s.diagnostic().as_deref(), Some("Error: boom"));
    assert!(matches!(s.close_frame_sent(CloseResult::Done), Action::Idle));
    assert!(matches!(s.writer_closed(CloseResult::Done), Action::Idle));
    assert_eq!(s.phase(), Phase::Closed);
    assert_eq!(s.exit_status(), Some(1));
}

#[test]
fn empty_line_is_not_sent_and_run_is_an_input_envelope() {
    let mut s = open_session(ProtocolVersion::V2, false);
    assert!(matches!(s.handle(Event::Line(String::new())), Action::Idle));
    assert_eq!(
        written(s.handle(Event::Line("run".to_string()))),
        r#"{"type":"input","data":"run","message":"","id":""}"#
    );
    let mut legacy = open_session(ProtocolVersion::Legacy, false);
    assert!(matches!(legacy.handle(Event::Line(String::new())), Action::Idle));
    assert_eq!(written(legacy.handle(Event::Line("run".to_string()))), "run");
}

#[test]
fn keepalive_only_when_open_under_v2() {
    let mut connecting = Session::new(false);
    assert!(matches!(connecting.handle(Event::Tick(1)), Action::Idle));
    connecting.begin_negotiation();
    assert!(matches!(connecting.handle(Event::Tick(2)), Action::Idle));
    let mut legacy = open_session(ProtocolVersion::Legacy, false);
    assert!(matches!(legacy.handle(Event::Tick(3)), Action::Idle));
    let mut v2 = open_session(ProtocolVersion::V2, false);
    assert_eq!(
        written(v2.handle(Event::Tick(1700000000123))),
        r#"{"type":"ping","data":"","message":"","id":"1700000000123"}"#
    );
    assert_eq!(written(v2.handle(Event::Tick(0))), r#"{"type":"ping","data":"","message":"","id":"0"}"#);
}

#[test]
fn cancellation_is_clean_and_final() {
    let mut s = open_session(ProtocolVersion::V2, false);
    assert!(matches!(s.handle(Event::Cancel), Action::Shutdown));
    assert_eq!(outcome(&s), (0, String::new()));
    assert_eq!(s.diagnostic(), None);
    // A write or read that completes afterwards changes nothing.
    assert!(matches!(s.handle(Event::WriteFailed("broken pipe".to_string())), Action::Idle));
    assert!(matches!(s.handle(Event::Inbound(Notice::ReadError("reset".to_string()))), Action::Idle));
    assert!(matches!(s.handle(Event::Tick(9)), Action::Idle));
    assert_eq!(outcome(&s), (0, String::new()));
    s.close_frame_sent(CloseResult::Done);
    s.writer_closed(CloseResult::Done);
    assert_eq!(s.exit_status(), Some(0));
}

#[test]
fn close_failure_after_clean_outcome_becomes_the_outcome() {
    let mut s = open_session(ProtocolVersion::Legacy, false);
    s.handle(Event::Cancel);
    assert_eq!(printed(s.close_frame_sent(CloseResult::Failed("connection reset".to_string()))), "Close error: connection reset");
    assert_eq!(outcome(&s), (1, "Close error: connection reset".to_string()));
    assert!(matches!(s.writer_closed(CloseResult::Failed("again".to_string())), Action::Idle));
    assert_eq!(outcome(&s), (1, "Close error: connection reset".to_string()));
    assert_eq!(s.exit_status(), Some(1));
}

#[test]
fn close_failure_does_not_mask_earlier_error() {
    let mut s = open_session(ProtocolVersion::V2, false);
    s.handle(Event::Inbound(Notice::CloseFrame));
    assert_eq!(
        outcome(&s),
        (1, "Read error: Received close message from Octyne!".to_string())
    );
    assert!(matches!(s.close_frame_sent(CloseResult::Failed("already closed".to_string())), Action::Idle));
    assert!(matches!(s.writer_closed(CloseResult::Failed("already closed".to_string())), Action::Idle));
    assert_eq!(s.exit_status(), Some(1));
    assert_eq!(
        outcome(&s),
        (1, "Read error: Received close message from Octyne!".to_string())
    );
}

#[test]
fn closing_again_after_closed_changes_nothing() {
    let mut s = open_session(ProtocolVersion::V2, false);
    s.handle(Event::Inbound(Notice::EndOfStream));
    assert_eq!(outcome(&s), (0, "Console closed by remote.".to_string()));
    assert_eq!(s.diagnostic(), None);
    s.close_frame_sent(CloseResult::Done);
    s.writer_closed(CloseResult::Done);
    assert_eq!(s.phase(), Phase::Closed);
    assert!(matches!(s.close_frame_sent(CloseResult::Failed("closed".to_string())), Action::Idle));
    assert!(matches!(s.writer_closed(CloseResult::Failed("closed".to_string())), Action::Idle));
    assert_eq!(s.exit_status(), Some(0));
    assert_eq!(s.phase(), Phase::Closed);
}

#[test]
fn read_write_and_corrupt_failures_set_their_outcomes() {
    let mut a = open_session(ProtocolVersion::V2, false);
    a.handle(Event::Inbound(Notice::ReadError("reset".to_string())));
    assert_eq!(outcome(&a), (1, "Read error: reset".to_string()));
    let mut b = open_session(ProtocolVersion::V2, false);
    b.handle(Event::WriteFailed("broken pipe".to_string()));
    assert_eq!(outcome(&b), (1, "Write error: broken pipe".to_string()));
    let mut c = open_session(ProtocolVersion::V2, false);
    c.handle(Event::InputFailed("stream did not contain valid UTF-8".to_string()));
    assert_eq!(outcome(&c), (1, "Write error: stream did not contain valid UTF-8".to_string()));
    let mut d = open_session(ProtocolVersion::V2, false);
    d.handle(Event::Inbound(Notice::Corrupt("expected value at line 1 column 1".to_string())));
    assert_eq!(
        outcome(&d),
        (1, "Error: Received corrupt message from Octyne! expected value at line 1 column 1".to_string())
    );
}

#[test]
fn input_and_ping_messages_from_remote_are_discarded() {
    let mut s = open_session(ProtocolVersion::V2, false);
    assert!(matches!(s.handle(Event::Inbound(Notice::Message(LogicalMessage::Input("x".to_string())))), Action::Idle));
    assert!(matches!(s.handle(Event::Inbound(Notice::Message(LogicalMessage::Ping("1".to_string())))), Action::Idle));
    assert_eq!(s.phase(), Phase::Open);
}

#[test]
fn failed_negotiation_ends_the_session() {
    let mut s = Session::new(false);
    s.begin_negotiation();
    let err = ConnectError::RemoteRejected("no such app".to_string());
    assert_eq!(printed(s.connect_failed(&err)), "Error: no such app");
    assert_eq!(s.phase(), Phase::Closed);
    assert_eq!(s.exit_status(), Some(1));
    assert_eq!(s.version(), None);
}

#[test]
fn reader_stops_after_terminal_notice() {
    let mut r = Reader::new(ProtocolVersion::V2);
    assert!(matches!(r.step(ReaderInput::Frame(Frame::Other(Ok("x".to_string())))), ReaderStep::ReadNext));
    match r.step(ReaderInput::Frame(Frame::Text("{}".to_string()))) {
        ReaderStep::Parse(t) => assert_eq!(t, "{}"),
        other => panic!("unexpected {:?}", other),
    }
    let unknown = octynectl::protocol::ConsoleMessage {
        kind: "status".to_string(),
        data: String::new(),
        message: String::new(),
        id: String::new(),
    };
    assert!(matches!(r.step(ReaderInput::Envelope(Ok(unknown))), ReaderStep::ReadNext));
    assert!(!r.done);
    match r.step(ReaderInput::Envelope(Err("EOF while parsing".to_string()))) {
        ReaderStep::Deliver(Notice::Corrupt(e)) => assert_eq!(e, "EOF while parsing"),
        other => panic!("unexpected {:?}", other),
    }
    assert!(r.done);
    assert!(matches!(r.step(ReaderInput::End), ReaderStep::Stop));
}

#[test]
fn reader_reports_close_end_and_failures() {
    let mut a = Reader::new(ProtocolVersion::Legacy);
    assert!(matches!(a.step(ReaderInput::Frame(Frame::Close)), ReaderStep::Deliver(Notice::CloseFrame)));
    let mut b = Reader::new(ProtocolVersion::Legacy);
    assert!(matches!(b.step(ReaderInput::End), ReaderStep::Deliver(Notice::EndOfStream)));
    let mut c = Reader::new(ProtocolVersion::Legacy);
    match c.step(ReaderInput::Frame(Frame::Other(Err("UTF-8 encoding error".to_string())))) {
        ReaderStep::Deliver(Notice::ReadError(e)) => assert_eq!(e, "UTF-8 encoding error"),
        other => panic!("unexpected {:?}", other),
    }
    let mut d = Reader::new(ProtocolVersion::V2);
    match d.step(ReaderInput::Failed("Connection reset without closing handshake".to_string())) {
        ReaderStep::Deliver(Notice::ReadError(e)) => assert_eq!(e, "Connection reset without closing handshake"),
        other => panic!("unexpected {:?}", other),
    }
    let mut e = Reader::new(ProtocolVersion::V2);
    let err = octynectl::protocol::ConsoleMessage {
        kind: "error".to_string(),
        data: String::new(),
        message: "boom".to_string(),
        id: String::new(),
    };
    assert!(matches!(e.step(ReaderInput::Envelope(Ok(err))), ReaderStep::Deliver(Notice::Message(LogicalMessage::Error(_)))));
    assert!(e.done);
}

#[test]
fn close_on_connection_already_ended_keeps_clean_exit() {
    let mut s = open_session(ProtocolVersion::V2, false);
    s.handle(Event::Inbound(Notice::EndOfStream));
    assert_eq!(s.exit_status(), Some(0));
    assert!(matches!(s.close_frame_sent(CloseResult::AlreadyClosed), Action::Idle));
    assert!(matches!(s.writer_closed(CloseResult::AlreadyClosed), Action::Idle));
    assert_eq!(s.phase(), Phase::Closed);
    assert_eq!(s.exit_status(), Some(0));
    assert_eq!(s.diagnostic(), None);
}

#[test]
fn cancellation_with_connection_already_ended_exits_zero() {
    let mut s = open_session(ProtocolVersion::Legacy, true);
    s.handle(Event::Cancel);
    s.close_frame_sent(CloseResult::AlreadyClosed);
    s.writer_closed(CloseResult::Done);
    assert_eq!(outcome(&s), (0, String::new()));
    assert_eq!(s.exit_status(), Some(0));
}

#[test]
fn close_frame_is_normal_closure_done() {
    assert_eq!(CLOSE_CODE, 1000);
    assert_eq!(CLOSE_REASON, "Done");
}
