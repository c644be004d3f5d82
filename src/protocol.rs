//! Message framing: the legacy protocol sends bare text, the newer one sends
//! JSON envelopes with a `type` discriminator.
use vstd::prelude::*;

verus! {

/// The framing negotiated for a session; fixed once the connection is open.
#[derive(Clone, Copy, Debug, PartialEq, Eq, Structural)]
pub enum ProtocolVersion {
    Legacy,
    V2,
}

/// A wire envelope of the newer protocol. Fields absent on the wire are empty.
#[derive(Clone, Debug)]
pub struct ConsoleMessage {
    pub kind: String,
    pub data: String,
    pub message: String,
    pub id: String,
}

/// What a payload means once its framing is removed.
#[derive(Clone, Debug)]
pub enum LogicalMessage {
    Output(String),
    Error(String),
    Input(String),
    Ping(String),
}

/// A logical message with its text as a sequence of characters.
pub enum MessageView {
    Output(Seq<char>),
    Error(Seq<char>),
    Input(Seq<char>),
    Ping(Seq<char>),
}

impl View for LogicalMessage {
    type V = MessageView;

    open spec fn view(&self) -> MessageView {
        match self {
            LogicalMessage::Output(t) => MessageView::Output(t@),
            LogicalMessage::Error(t) => MessageView::Error(t@),
            LogicalMessage::Input(t) => MessageView::Input(t@),
            LogicalMessage::Ping(i) => MessageView::Ping(i@),
        }
    }
}

/// A lower-case hexadecimal digit.
pub open spec fn hex_digit(d: nat) -> char {
    if d < 10 {
        (('0' as u32) + d) as char
    } else {
        (('a' as u32) + (d - 10)) as char
    }
}

/// How a character is written inside a JSON string: `"` and `\` behind a
/// backslash, the short forms `\b`, `\t`, `\n`, `\f` and `\r`, any other
/// character below U+0020 as `\u00` and two lower-case hex digits, and every
/// other character as it is.
pub open spec fn escape_char(c: char) -> Seq<char> {
    if c == '"' {
        seq!['\\', '"']
    } else if c == '\\' {
        seq!['\\', '\\']
    } else if c == '\u{08}' {
        seq!['\\', 'b']
    } else if c == '\t' {
        seq!['\\', 't']
    } else if c == '\n' {
        seq!['\\', 'n']
    } else if c == '\u{0C}' {
        seq!['\\', 'f']
    } else if c == '\r' {
        seq!['\\', 'r']
    } else if (c as u32) < 0x20 {
        seq!['\\', 'u', '0', '0', hex_digit((c as u32 / 16) as nat), hex_digit((c as u32 % 16) as nat)]
    } else {
        seq![c]
    }
}

/// The characters of `s`, each escaped as inside a JSON string.
pub open spec fn json_escaped(s: Seq<char>) -> Seq<char>
    decreases s.len(),
{
    if s.len() == 0 {
        Seq::empty()
    } else {
        escape_char(s[0]) + json_escaped(s.drop_first())
    }
}

/// The JSON string literal for `s`, as serde_json writes it: the escaped text
/// between double quotes.
pub open spec fn json_quoted(s: Seq<char>) -> Seq<char> {
    seq!['"'] + json_escaped(s) + seq!['"']
}

/// Text that JSON carries without escapes: no `"`, no `\`, no control character.
pub open spec fn is_plain_text(s: Seq<char>) -> bool {
    forall|i: int| 0 <= i < s.len() ==> s[i] != '"' && s[i] != '\\' && (s[i] as u32) >= 0x20
}

/// Plain text is quoted as it is.
pub proof fn lemma_plain_text_quoted(s: Seq<char>)
    requires
        is_plain_text(s),
    ensures
        json_escaped(s) == s,
        json_quoted(s) == seq!['"'] + s + seq!['"'],
    decreases s.len(),
{
    if s.len() > 0 {
        assert(is_plain_text(s.drop_first())) by {
            assert forall|i: int| 0 <= i < s.drop_first().len() implies s.drop_first()[i] != '"'
                && s.drop_first()[i] != '\\' && (s.drop_first()[i] as u32) >= 0x20 by {
                assert(s.drop_first()[i] == s[i + 1]);
            }
        }
        lemma_plain_text_quoted(s.drop_first());
        assert(seq![s[0]] + s.drop_first() =~= s);
    }
}

/// Relies on `serde_json::to_string` applied to a `str` (serde_json's
/// `format_escaped_str` with its escape table): it writes `"`, the text with
/// the escapes that `escape_char` lists, and `"` into memory, which cannot fail
/// (the error arm is never taken).
#[verifier::external_body]
fn quote_json(s: &str) -> (r: String)
    ensures
        r@ == json_quoted(s@),
{
    match serde_json::to_string(s) {
        Ok(t) => t,
        Err(_) => String::new(),
    }
}

/// The envelope text with its fields in wire order: type, data, message, id.
pub open spec fn envelope_json(
    kind: Seq<char>,
    data: Seq<char>,
    message: Seq<char>,
    id: Seq<char>,
) -> Seq<char> {
    "{\"type\":"@ + json_quoted(kind) + ",\"data\":"@ + json_quoted(data) + ",\"message\":"@
        + json_quoted(message) + ",\"id\":"@ + json_quoted(id) + "}"@
}

/// The envelope that carries a logical message under the newer protocol.
pub open spec fn envelope_fields(m: MessageView) -> (Seq<char>, Seq<char>, Seq<char>, Seq<char>) {
    match m {
        MessageView::Output(t) => ("output"@, t, Seq::empty(), Seq::empty()),
        MessageView::Error(t) => ("error"@, Seq::empty(), t, Seq::empty()),
        MessageView::Input(t) => ("input"@, t, Seq::empty(), Seq::empty()),
        MessageView::Ping(i) => ("ping"@, Seq::empty(), Seq::empty(), i),
    }
}

/// The wire payload of `m`, or `None` where the protocol sends nothing for it.
pub open spec fn encode_spec(m: MessageView, version: ProtocolVersion) -> Option<Seq<char>> {
    match version {
        ProtocolVersion::Legacy => match m {
            MessageView::Ping(_) => None,
            MessageView::Output(t) => Some(t),
            MessageView::Error(t) => Some(t),
            MessageView::Input(t) => Some(t),
        },
        ProtocolVersion::V2 => {
            let f = envelope_fields(m);
            Some(envelope_json(f.0, f.1, f.2, f.3))
        },
    }
}

/// The message an envelope carries; `None` for a type this client does not know.
pub open spec fn decode_spec(kind: Seq<char>, data: Seq<char>, message: Seq<char>, id: Seq<char>) -> Option<
    MessageView,
> {
    if kind == "output"@ {
        Some(MessageView::Output(data))
    } else if kind == "error"@ {
        Some(MessageView::Error(message))
    } else if kind == "input"@ {
        Some(MessageView::Input(data))
    } else if kind == "ping"@ {
        Some(MessageView::Ping(id))
    } else {
        None
    }
}

/// An envelope of type `output` decodes to its `data` field, whatever its
/// `message` and `id` fields hold.
pub proof fn lemma_output_is_data(
    data: Seq<char>,
    message: Seq<char>,
    id: Seq<char>,
    other_message: Seq<char>,
    other_id: Seq<char>,
)
    ensures
        decode_spec("output"@, data, message, id) == Some(MessageView::Output(data)),
        decode_spec("output"@, data, message, id) == decode_spec(
            "output"@,
            data,
            other_message,
            other_id,
        ),
{
}

/// A line of plain text typed under the newer protocol goes on the wire as
/// `{"type":"input","data":"<line>","message":"","id":""}`.
pub proof fn lemma_input_wire_text(line: Seq<char>)
    requires
        is_plain_text(line),
    ensures
        encode_spec(MessageView::Input(line), ProtocolVersion::V2) == Some(
            "{\"type\":\"input\",\"data\":\""@ + line + "\",\"message\":\"\",\"id\":\"\"}"@,
        ),
{
    reveal_strlit("input");
    reveal_strlit("{\"type\":");
    reveal_strlit(",\"data\":");
    reveal_strlit(",\"message\":");
    reveal_strlit(",\"id\":");
    reveal_strlit("}");
    reveal_strlit("{\"type\":\"input\",\"data\":\"");
    reveal_strlit("\",\"message\":\"\",\"id\":\"\"}");
    let input = "input"@;
    assert(is_plain_text(input));
    lemma_plain_text_quoted(input);
    lemma_plain_text_quoted(line);
    lemma_plain_text_quoted(Seq::empty());
    assert(envelope_json(input, line, Seq::empty(), Seq::empty()) =~= "{\"type\":\"input\",\"data\":\""@
        + line + "\",\"message\":\"\",\"id\":\"\"}"@);
}

impl ConsoleMessage {
    /// The JSON text of this envelope.
    pub fn to_json(&self) -> (r: String)
        ensures
            r@ == envelope_json(self.kind@, self.data@, self.message@, self.id@),
    {
        let mut r = String::from_str("{\"type\":");
        r.append(quote_json(self.kind.as_str()).as_str());
        r.append(",\"data\":");
        r.append(quote_json(self.data.as_str()).as_str());
        r.append(",\"message\":");
        r.append(quote_json(self.message.as_str()).as_str());
        r.append(",\"id\":");
        r.append(quote_json(self.id.as_str()).as_str());
        r.append("}");
        r
    }
}

/// The envelope that carries `m`.
pub fn envelope_of(m: &LogicalMessage) -> (r: ConsoleMessage)
    ensures
        (r.kind@, r.data@, r.message@, r.id@) == envelope_fields(m@),
{
    match m {
        LogicalMessage::Output(t) => ConsoleMessage {
            kind: String::from_str("output"),
            data: t.clone(),
            message: String::new(),
            id: String::new(),
        },
        LogicalMessage::Error(t) => ConsoleMessage {
            kind: String::from_str("error"),
            data: String::new(),
            message: t.clone(),
            id: String::new(),
        },
        LogicalMessage::Input(t) => ConsoleMessage {
            kind: String::from_str("input"),
            data: t.clone(),
            message: String::new(),
            id: String::new(),
        },
        LogicalMessage::Ping(i) => ConsoleMessage {
            kind: String::from_str("ping"),
            data: String::new(),
            message: String::new(),
            id: i.clone(),
        },
    }
}

/// The wire payload of `m` under `version`; `None` where nothing is sent
/// (a ping under the legacy protocol).
pub fn encode(m: &LogicalMessage, version: ProtocolVersion) -> (r: Option<String>)
    ensures
        encode_spec(m@, version) == match r {
            Some(t) => Some(t@),
            None => None,
        },
{
    match version {
        ProtocolVersion::Legacy => match m {
            LogicalMessage::Ping(_) => None,
            LogicalMessage::Output(t) => Some(t.clone()),
            LogicalMessage::Error(t) => Some(t.clone()),
            LogicalMessage::Input(t) => Some(t.clone()),
        },
        ProtocolVersion::V2 => Some(envelope_of(m).to_json()),
    }
}

/// Under the legacy protocol every payload is output text.
pub fn decode_legacy(payload: String) -> (r: LogicalMessage)
    ensures
        r == LogicalMessage::Output(payload),
{
    LogicalMessage::Output(payload)
}

/// The message an envelope of the newer protocol carries; `None` for a type
/// outside output, error, input and ping, which is ignored.
pub fn decode_envelope(env: &ConsoleMessage) -> (r: Option<LogicalMessage>)
    ensures
        decode_spec(env.kind@, env.data@, env.message@, env.id@) == match r {
            Some(m) => Some(m@),
            None => None,
        },
{
    if env.kind == String::from_str("output") {
        Some(LogicalMessage::Output(env.data.clone()))
    } else if env.kind == String::from_str("error") {
        Some(LogicalMessage::Error(env.message.clone()))
    } else if env.kind == String::from_str("input") {
        Some(LogicalMessage::Input(env.data.clone()))
    } else if env.kind == String::from_str("ping") {
        Some(LogicalMessage::Ping(env.id.clone()))
    } else {
        None
    }
}

} // verus!
