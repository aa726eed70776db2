use vstd::prelude::*;

use crate::error::SeriaError;
use crate::models::ClientEvent;

verus! {

/// The lowercase hexadecimal digit of `d`, below 16.
pub open spec fn hex_digit(d: nat) -> char {
    "0123456789abcdef"@[d as int]
}

/// How JSON writes one character inside a string literal: `"` and `\` behind a backslash,
/// backspace, tab, line feed, form feed and carriage return as `\b \t \n \f \r`, any
/// other control character below U+0020 as `\u00` and two lowercase hex digits, and
/// every other character as it is.
pub open spec fn json_escape_char(c: char) -> Seq<char> {
    if c == '"' {
        seq!['\\', '"']
    } else if c == '\\' {
        seq!['\\', '\\']
    } else if c == '\u{8}' {
        seq!['\\', 'b']
    } else if c == '\t' {
        seq!['\\', 't']
    } else if c == '\n' {
        seq!['\\', 'n']
    } else if c == '\u{c}' {
        seq!['\\', 'f']
    } else if c == '\r' {
        seq!['\\', 'r']
    } else if (c as u32) < 0x20 {
        seq!['\\', 'u', '0', '0', hex_digit((c as u32 / 16) as nat), hex_digit((c as u32 % 16) as nat)]
    } else {
        seq![c]
    }
}

/// The characters of `s`, each escaped as JSON writes it inside a string literal.
pub open spec fn json_escaped(s: Seq<char>) -> Seq<char>
    decreases s.len(),
{
    if s.len() == 0 {
        Seq::empty()
    } else {
        json_escaped(s.drop_last()) + json_escape_char(s.last())
    }
}

/// The JSON string literal of a text: its escaped characters between double quotes.
pub open spec fn json_quoted(s: Seq<char>) -> Seq<char> {
    seq!['"'] + json_escaped(s) + seq!['"']
}

/// Relies on `serde_json::to_string` on a `str`: it writes the JSON string literal of the
/// text (`format_escaped_str`, with the escapes of its `ESCAPE` table) into a `Vec`, which
/// cannot fail.
#[verifier::external_body]
fn json_quote(s: &str) -> (r: Option<String>)
    ensures
        r is Some,
        r matches Some(q) ==> q@ == json_quoted(s@),
{
    serde_json::to_string(s).ok()
}

/// The decimal digit `d`.
pub open spec fn digit_text(d: nat) -> Seq<char> {
    if d == 0 {
        "0"@
    } else if d == 1 {
        "1"@
    } else if d == 2 {
        "2"@
    } else if d == 3 {
        "3"@
    } else if d == 4 {
        "4"@
    } else if d == 5 {
        "5"@
    } else if d == 6 {
        "6"@
    } else if d == 7 {
        "7"@
    } else if d == 8 {
        "8"@
    } else {
        "9"@
    }
}

/// The decimal notation of `n`, without leading zeros.
pub open spec fn decimal(n: nat) -> Seq<char>
    decreases n,
{
    if n < 10 {
        digit_text(n)
    } else {
        decimal(n / 10) + digit_text(n % 10)
    }
}

fn digit_string(d: usize) -> (r: String)
    requires
        d < 10,
    ensures
        r@ == digit_text(d as nat),
{
    if d == 0 {
        String::from_str("0")
    } else if d == 1 {
        String::from_str("1")
    } else if d == 2 {
        String::from_str("2")
    } else if d == 3 {
        String::from_str("3")
    } else if d == 4 {
        String::from_str("4")
    } else if d == 5 {
        String::from_str("5")
    } else if d == 6 {
        String::from_str("6")
    } else if d == 7 {
        String::from_str("7")
    } else if d == 8 {
        String::from_str("8")
    } else {
        String::from_str("9")
    }
}

/// The decimal notation of `n`.
pub fn decimal_string(n: usize) -> (r: String)
    ensures
        r@ == decimal(n as nat),
    decreases n,
{
    if n < 10 {
        digit_string(n)
    } else {
        let head = decimal_string(n / 10);
        let tail = digit_string(n % 10);
        head.concat(tail.as_str())
    }
}

/// The text that an intent carries as a JSON string: the credential or the channel; a
/// ping carries none.
pub open spec fn intent_text(intent: ClientEvent) -> Seq<char> {
    match intent {
        ClientEvent::Authenticate { token } => token@,
        ClientEvent::BeginTyping { channel } => channel@,
        ClientEvent::EndTyping { channel } => channel@,
        ClientEvent::Ping { data } => Seq::empty(),
    }
}

/// The wire frame of an intent, given the JSON string literal `quoted` of its text:
/// an object tagged by `type`, in the order and spacing that serde_json writes.
pub open spec fn intent_frame(intent: ClientEvent, quoted: Seq<char>) -> Seq<char> {
    match intent {
        ClientEvent::Authenticate { .. } => "{\"type\":\"Authenticate\",\"token\":"@ + quoted + "}"@,
        ClientEvent::BeginTyping { .. } => "{\"type\":\"BeginTyping\",\"channel\":"@ + quoted + "}"@,
        ClientEvent::EndTyping { .. } => "{\"type\":\"EndTyping\",\"channel\":"@ + quoted + "}"@,
        ClientEvent::Ping { data } => "{\"type\":\"Ping\",\"data\":"@ + decimal(data as nat) + "}"@,
    }
}

/// The encoding of an intent on the wire.
pub open spec fn wire_encoding(intent: ClientEvent) -> Seq<char> {
    intent_frame(intent, json_quoted(intent_text(intent)))
}

/// The wire frame of `intent`, given the JSON string literal `quoted` of its text.
pub fn frame_intent(intent: &ClientEvent, quoted: &str) -> (r: String)
    ensures
        r@ == intent_frame(*intent, quoted@),
{
    match intent {
        ClientEvent::Authenticate { .. } => {
            String::from_str("{\"type\":\"Authenticate\",\"token\":").concat(quoted).concat("}")
        },
        ClientEvent::BeginTyping { .. } => {
            String::from_str("{\"type\":\"BeginTyping\",\"channel\":").concat(quoted).concat("}")
        },
        ClientEvent::EndTyping { .. } => {
            String::from_str("{\"type\":\"EndTyping\",\"channel\":").concat(quoted).concat("}")
        },
        ClientEvent::Ping { data } => {
            let digits = decimal_string(*data);
            String::from_str("{\"type\":\"Ping\",\"data\":").concat(digits.as_str()).concat("}")
        },
    }
}

/// Encodes an intent for the wire. Every intent encodes.
pub fn encode_intent(intent: &ClientEvent) -> (r: String)
    ensures
        r@ == wire_encoding(*intent),
{
    let quoted = match intent {
        ClientEvent::Authenticate { token } => json_quote(token.as_str()),
        ClientEvent::BeginTyping { channel } => json_quote(channel.as_str()),
        ClientEvent::EndTyping { channel } => json_quote(channel.as_str()),
        ClientEvent::Ping { .. } => Some(String::new()),
    };
    match quoted {
        Some(q) => {
            proof {
                if intent is Ping {
                    assert(intent_frame(*intent, q@) == wire_encoding(*intent));
                }
            }
            frame_intent(intent, q.as_str())
        },
        None => String::new(),
    }
}

/// Encodes a batch of queued intents for the writer: one frame per intent, at the same
/// position, so each intent reaches the wire once and in the order it was queued.
pub fn encode_all(intents: &Vec<ClientEvent>) -> (r: Vec<String>)
    ensures
        r@.len() == intents@.len(),
        forall|i: int| 0 <= i < intents@.len() ==> (#[trigger] r@[i])@ == wire_encoding(intents@[i]),
{
    let mut out: Vec<String> = Vec::new();
    let mut i: usize = 0;
    while i < intents.len()
        invariant
            0 <= i <= intents@.len(),
            out@.len() == i,
            forall|j: int| 0 <= j < i ==> (#[trigger] out@[j])@ == wire_encoding(intents@[j]),
        decreases intents@.len() - i,
    {
        let frame = encode_intent(&intents[i]);
        out.push(frame);
        i += 1;
    }
    out
}

/// What the writer does after writing one frame.
#[derive(Debug)]
pub enum WriterStep {
    /// The frame went out; take the next intent.
    Continue,
    /// The write failed: report the error and stop; the attempt is over.
    Stop(SeriaError),
}

/// Decides what the writer does after writing one frame: go on after a write that
/// succeeded, report the failure and stop after one that failed.
pub fn write_step(written: Result<(), SeriaError>) -> (r: WriterStep)
    ensures
        written is Ok <==> r is Continue,
        written matches Err(e) ==> r == WriterStep::Stop(e),
{
    match written {
        Ok(()) => WriterStep::Continue,
        Err(e) => WriterStep::Stop(e),
    }
}

} // verus!
