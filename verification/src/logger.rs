//! Structured log lines: each message wrapped in a JSON envelope.

use vstd::prelude::*;
use vstd::string::*;

verus! {

/// How grave a log message is, gravest first.
#[derive(Debug, Clone, Copy, PartialEq, Eq, Structural)]
pub enum Severity {
    Error,
    Warn,
    Info,
    Debug,
    Trace,
}

impl Severity {
    /// The name under which a severity is written into a log line.
    pub open spec fn label(self) -> Seq<char> {
        match self {
            Severity::Error => "ERROR"@,
            Severity::Warn => "WARN"@,
            Severity::Info => "INFO"@,
            Severity::Debug => "DEBUG"@,
            Severity::Trace => "TRACE"@,
        }
    }

    /// The name under which this severity is written into a log line.
    pub fn as_str(&self) -> (name: &'static str)
        ensures
            name@ == self.label(),
    {
        match self {
            Severity::Error => "ERROR",
            Severity::Warn => "WARN",
            Severity::Info => "INFO",
            Severity::Debug => "DEBUG",
            Severity::Trace => "TRACE",
        }
    }
}

/// The character that stands for a digit below ten.
pub open spec fn digit(d: int) -> char {
    ('0' as int + d) as char
}

/// The decimal numeral of a natural number, without leading zeros.
pub open spec fn numeral(n: nat) -> Seq<char>
    decreases n,
{
    if n < 10 {
        seq![digit(n as int)]
    } else {
        numeral(n / 10).push(digit((n % 10) as int))
    }
}

/// The decimal numeral of an integer: that of its magnitude, behind a `-`
/// where the integer is negative.
pub open spec fn decimal(n: int) -> Seq<char> {
    if n < 0 {
        seq!['-'] + numeral((-n) as nat)
    } else {
        numeral(n as nat)
    }
}

/// The leading digits that are still to be written when `rest` is what is
/// left of a number after its last digits were taken off.
spec fn leading(rest: nat) -> Seq<char> {
    if rest == 0 {
        Seq::empty()
    } else {
        numeral(rest)
    }
}

fn digit_char(d: u8) -> (c: char)
    requires
        d < 10,
    ensures
        c == digit(d as int),
{
    (48u8 + d) as char
}

/// Writes an integer as a decimal numeral.
pub fn format_decimal(n: i64) -> (text: String)
    ensures
        text@ == decimal(n as int),
{
    let magnitude: u64 = if n < 0 {
        (-(n + 1)) as u64 + 1
    } else {
        n as u64
    };
    // The digits, last first.
    let mut reversed: Vec<char> = Vec::new();
    reversed.push(digit_char((magnitude % 10) as u8));
    let mut rest: u64 = magnitude / 10;
    assert(numeral(magnitude as nat) =~= leading(rest as nat) + reversed@.reverse());
    while rest > 0
        invariant
            reversed@.len() > 0,
            numeral(magnitude as nat) == leading(rest as nat) + reversed@.reverse(),
        decreases rest,
    {
        let ghost before = reversed@;
        reversed.push(digit_char((rest % 10) as u8));
        assert(leading(rest as nat) + before.reverse() =~= leading((rest / 10) as nat)
            + reversed@.reverse());
        rest = rest / 10;
    }
    let mut text = String::new();
    if n < 0 {
        text.push('-');
    }
    let ghost sign = text@;
    let mut left: usize = reversed.len();
    while left > 0
        invariant
            left <= reversed@.len(),
            text@ == sign + reversed@.reverse().take(reversed@.len() - left),
        decreases left,
    {
        left = left - 1;
        text.push(reversed[left]);
        assert(text@ =~= sign + reversed@.reverse().take(reversed@.len() - left));
    }
    assert(reversed@.reverse().take(reversed@.len() as int) =~= reversed@.reverse());
    assert(text@ =~= decimal(n as int));
    text
}

/// The JSON string literal for a text: the text between double quotes, with
/// the characters that JSON does not take as they are written as escapes.
pub uninterp spec fn json_string_literal(text: Seq<char>) -> Seq<char>;

/// `serde_json`'s rendering of a string value: `Value::from` makes the value
/// and its `Display` writes it in the compact form, which for a string is its
/// JSON literal.
#[verifier::external_body]
fn json_quote(text: &str) -> (literal: String)
    ensures
        literal@ == json_string_literal(text@),
{
    serde_json::Value::from(text).to_string()
}

/// The log line made of three JSON string literals and a timestamp: a JSON
/// object with the members `id`, `level`, `message` and `timestamp`, in this
/// order and without spaces.
pub open spec fn envelope_text(
    id_literal: Seq<char>,
    level_literal: Seq<char>,
    message_literal: Seq<char>,
    timestamp: int,
) -> Seq<char> {
    "{\"id\":"@ + id_literal + ",\"level\":"@ + level_literal + ",\"message\":"@
        + message_literal + ",\"timestamp\":"@ + decimal(timestamp) + "}"@
}

/// Puts a log line together from the JSON literals of its strings.
pub fn envelope_line(
    id_literal: &str,
    level_literal: &str,
    message_literal: &str,
    timestamp: i64,
) -> (line: String)
    ensures
        line@ == envelope_text(id_literal@, level_literal@, message_literal@, timestamp as int),
{
    let stamp = format_decimal(timestamp);
    String::from_str("{\"id\":").concat(id_literal).concat(",\"level\":").concat(
        level_literal,
    ).concat(",\"message\":").concat(message_literal).concat(",\"timestamp\":").concat(
        stamp.as_str(),
    ).concat("}")
}

/// A logger that wraps each message in a JSON envelope before it hands the
/// line to the sink it holds. The envelope carries the identifier of the
/// execution, the time, the severity and the message.
pub struct JsonLogger<L> {
    inner: L,
    id: String,
}

/// A logger as its sink and the characters of its identifier.
pub struct JsonLoggerView<L> {
    pub inner: L,
    pub id: Seq<char>,
}

impl<L> View for JsonLogger<L> {
    type V = JsonLoggerView<L>;

    closed spec fn view(&self) -> JsonLoggerView<L> {
        JsonLoggerView { inner: self.inner, id: self.id@ }
    }
}

impl<L> JsonLogger<L> {
    /// A logger that writes to `inner` under the identifier `id`.
    pub fn new(inner: L, id: String) -> (logger: Self)
        ensures
            logger@.inner == inner,
            logger@.id == id@,
    {
        Self { inner, id }
    }

    /// The line of a message: the envelope made of the JSON literals of this
    /// logger's identifier, of the severity's label and of the message, and
    /// of the timestamp.
    pub open spec fn line(&self, timestamp: int, severity: Severity, message: Seq<char>) -> Seq<
        char,
    > {
        envelope_text(
            json_string_literal(self@.id),
            json_string_literal(severity.label()),
            json_string_literal(message),
            timestamp,
        )
    }

    /// The sink that the lines go to.
    pub fn inner(&self) -> (inner: &L)
        ensures
            *inner == self@.inner,
    {
        &self.inner
    }

    /// The identifier that every line carries.
    pub fn id(&self) -> (id: &str)
        ensures
            id@ == self@.id,
    {
        self.id.as_str()
    }

    /// What the sink is handed for one record: the record's line where the
    /// sink takes records of its kind, and nothing where it does not.
    /// `enabled` is the sink's answer to that question, and `timestamp` the
    /// time of the record in seconds since the epoch.
    pub fn log(&self, enabled: bool, timestamp: i64, severity: Severity, message: &str) -> (line:
        Option<String>)
        ensures
            match line {
                Some(line) => enabled && line@ == self.line(timestamp as int, severity, message@),
                None => !enabled,
            },
    {
        if enabled {
            Some(self.envelope(timestamp, severity, message))
        } else {
            None
        }
    }

    /// The line for one message: the envelope of this logger's identifier,
    /// the severity's label, the message and the timestamp.
    pub fn envelope(&self, timestamp: i64, severity: Severity, message: &str) -> (line: String)
        ensures
            line@ == self.line(timestamp as int, severity, message@),
    {
        let id_literal = json_quote(self.id.as_str());
        let level_literal = json_quote(severity.as_str());
        let message_literal = json_quote(message);
        envelope_line(
            id_literal.as_str(),
            level_literal.as_str(),
            message_literal.as_str(),
            timestamp,
        )
    }
}

} // verus!
