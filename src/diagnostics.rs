use ash::vk;
use vstd::prelude::*;
use vstd::string::*;

verus! {

/// The four severities of a diagnostic event, in increasing order.
#[derive(Debug, Clone, Copy, PartialEq, Eq, Structural)]
pub enum Severity {
    Verbose,
    Info,
    Warning,
    Error,
}

/// The categories that a diagnostic event may carry.
#[derive(Debug, Clone, Copy, PartialEq, Eq, Structural)]
pub enum MessageType {
    General,
    Validation,
    Performance,
}

/// The levels of the logging sink that diagnostics are routed to.
#[derive(Debug, Clone, Copy, PartialEq, Eq, Structural)]
pub enum LogLevel {
    Trace,
    Debug,
    Warn,
    Error,
}

/// One line for the logging sink, with the level to write it at.
#[derive(Debug, Clone)]
pub struct LogRecord {
    pub level: LogLevel,
    pub line: String,
}

/// The raw bit that the native API uses for a severity.
pub open spec fn severity_value(s: Severity) -> u32 {
    match s {
        Severity::Verbose => 0x1,
        Severity::Info => 0x10,
        Severity::Warning => 0x100,
        Severity::Error => 0x1000,
    }
}

/// The raw bit that the native API uses for a message category.
pub open spec fn type_value(t: MessageType) -> u32 {
    match t {
        MessageType::General => 0x1,
        MessageType::Validation => 0x2,
        MessageType::Performance => 0x4,
    }
}

/// The severity that a raw value stands for; none for a value that is not
/// exactly one known severity bit.
pub open spec fn severity_of(raw: u32) -> Option<Severity> {
    if raw == 0x1 {
        Some(Severity::Verbose)
    } else if raw == 0x10 {
        Some(Severity::Info)
    } else if raw == 0x100 {
        Some(Severity::Warning)
    } else if raw == 0x1000 {
        Some(Severity::Error)
    } else {
        None
    }
}

/// The logging level that a severity is written at.
pub open spec fn level_of(s: Severity) -> LogLevel {
    match s {
        Severity::Verbose => LogLevel::Trace,
        Severity::Info => LogLevel::Debug,
        Severity::Warning => LogLevel::Warn,
        Severity::Error => LogLevel::Error,
    }
}

pub open spec fn digit_char(d: nat) -> char {
    if d == 0 {
        '0'
    } else if d == 1 {
        '1'
    } else if d == 2 {
        '2'
    } else if d == 3 {
        '3'
    } else if d == 4 {
        '4'
    } else if d == 5 {
        '5'
    } else if d == 6 {
        '6'
    } else if d == 7 {
        '7'
    } else if d == 8 {
        '8'
    } else {
        '9'
    }
}

/// The decimal digits of a natural number, most significant first.
pub open spec fn nat_text(n: nat) -> Seq<char>
    decreases n,
{
    if n < 10 {
        seq![digit_char(n)]
    } else {
        nat_text(n / 10).push(digit_char(n % 10))
    }
}

/// The decimal text of an integer, with a leading minus sign when negative.
pub open spec fn int_text(n: int) -> Seq<char> {
    if n < 0 {
        seq!['-'] + nat_text((-n) as nat)
    } else {
        nat_text(n as nat)
    }
}

/// The text of an optional string; an absent one reads as empty.
pub open spec fn opt_text(o: Option<&str>) -> Seq<char> {
    match o {
        Some(t) => t@,
        None => Seq::empty(),
    }
}

/// The line written for a diagnostic event:
/// `{types} [{id_name} ({id_number})] : {message}`.
pub open spec fn diagnostic_line(
    types: Seq<char>,
    id_name: Seq<char>,
    id_number: i32,
    message: Seq<char>,
) -> Seq<char> {
    types + " ["@ + id_name + " ("@ + int_text(id_number as int) + ")] : "@ + message
}

/// What the native API's debug formatting of a set of message-type bits reads.
pub uninterp spec fn message_type_text(bits: u32) -> Seq<char>;

/// Relies on the raw values of ash's `vk::DebugUtilsMessageSeverityFlagsEXT`
/// constants (`VERBOSE`, `INFO`, `WARNING`, `ERROR`) and on `as_raw`.
#[verifier::external_body]
fn severity_flag(s: Severity) -> (r: u32)
    ensures
        r == severity_value(s),
{
    match s {
        Severity::Verbose => vk::DebugUtilsMessageSeverityFlagsEXT::VERBOSE.as_raw(),
        Severity::Info => vk::DebugUtilsMessageSeverityFlagsEXT::INFO.as_raw(),
        Severity::Warning => vk::DebugUtilsMessageSeverityFlagsEXT::WARNING.as_raw(),
        Severity::Error => vk::DebugUtilsMessageSeverityFlagsEXT::ERROR.as_raw(),
    }
}

/// Relies on the raw values of ash's `vk::DebugUtilsMessageTypeFlagsEXT`
/// constants (`GENERAL`, `VALIDATION`, `PERFORMANCE`) and on `as_raw`.
#[verifier::external_body]
fn type_flag(t: MessageType) -> (r: u32)
    ensures
        r == type_value(t),
{
    match t {
        MessageType::General => vk::DebugUtilsMessageTypeFlagsEXT::GENERAL.as_raw(),
        MessageType::Validation => vk::DebugUtilsMessageTypeFlagsEXT::VALIDATION.as_raw(),
        MessageType::Performance => vk::DebugUtilsMessageTypeFlagsEXT::PERFORMANCE.as_raw(),
    }
}

/// Relies on ash's `Debug` impl of `vk::DebugUtilsMessageTypeFlagsEXT`: the
/// names of the set bits joined by ` | `, and nothing for no bit.
#[verifier::external_body]
fn type_flags_text(bits: u32) -> (r: String)
    ensures
        r@ == message_type_text(bits),
        bits == 0 ==> r@.len() == 0,
        bits == 1 ==> r@ == "GENERAL"@,
        bits == 2 ==> r@ == "VALIDATION"@,
        bits == 4 ==> r@ == "PERFORMANCE"@,
{
    format!("{:?}", vk::DebugUtilsMessageTypeFlagsEXT::from_raw(bits))
}

/// Relies on the `Display` impl of `i32`: its decimal text.
#[verifier::external_body]
fn decimal_string(n: i32) -> (r: String)
    ensures
        r@ == int_text(n as int),
{
    n.to_string()
}

impl Severity {
    /// The severity of a raw native value, if it is exactly one known bit.
    pub fn from_raw(raw: u32) -> (r: Option<Severity>)
        ensures
            r == severity_of(raw),
    {
        if raw == severity_flag(Severity::Verbose) {
            Some(Severity::Verbose)
        } else if raw == severity_flag(Severity::Info) {
            Some(Severity::Info)
        } else if raw == severity_flag(Severity::Warning) {
            Some(Severity::Warning)
        } else if raw == severity_flag(Severity::Error) {
            Some(Severity::Error)
        } else {
            None
        }
    }

    /// The logging level that events of this severity are written at.
    pub fn level(self) -> (r: LogLevel)
        ensures
            r == level_of(self),
    {
        match self {
            Severity::Verbose => LogLevel::Trace,
            Severity::Info => LogLevel::Debug,
            Severity::Warning => LogLevel::Warn,
            Severity::Error => LogLevel::Error,
        }
    }
}

/// The severities a messenger registers for: error, warning and info.
pub fn messenger_severity_mask() -> (r: u32)
    ensures
        r == 0x1110,
{
    let e = severity_flag(Severity::Error);
    let w = severity_flag(Severity::Warning);
    let i = severity_flag(Severity::Info);
    assert(0x1000u32 | 0x100u32 | 0x10u32 == 0x1110u32) by (bit_vector);
    e | w | i
}

/// The categories a messenger registers for: general, validation and performance.
pub fn messenger_type_mask() -> (r: u32)
    ensures
        r == 0x7,
{
    let g = type_flag(MessageType::General);
    let v = type_flag(MessageType::Validation);
    let p = type_flag(MessageType::Performance);
    assert(0x1u32 | 0x2u32 | 0x4u32 == 0x7u32) by (bit_vector);
    g | v | p
}

/// The line for a diagnostic event whose categories already read `types`.
pub fn format_diagnostic(types: &str, id_name: &str, id_number: i32, message: &str) -> (r: String)
    ensures
        r@ == diagnostic_line(types@, id_name@, id_number, message@),
{
    let mut line = String::from_str(types);
    line.append(" [");
    line.append(id_name);
    line.append(" (");
    let digits = decimal_string(id_number);
    line.append(digits.as_str());
    line.append(")] : ");
    line.append(message);
    line
}

/// Routes a diagnostic event whose categories already read `types`: a known
/// severity gives one record at its level, any other value gives none.
pub fn route_diagnostic(
    severity: u32,
    types: &str,
    id_number: i32,
    id_name: Option<&str>,
    message: Option<&str>,
) -> (r: Option<LogRecord>)
    ensures
        severity_of(severity) is None ==> r is None,
        severity_of(severity) is Some ==> r is Some && r->Some_0.level == level_of(
            severity_of(severity)->Some_0,
        ) && r->Some_0.line@ == diagnostic_line(
            types@,
            opt_text(id_name),
            id_number,
            opt_text(message),
        ),
{
    match Severity::from_raw(severity) {
        None => None,
        Some(s) => {
            let name = match id_name {
                Some(t) => t,
                None => "",
            };
            let text = match message {
                Some(t) => t,
                None => "",
            };
            proof {
                reveal_strlit("");
            }
            let line = format_diagnostic(types, name, id_number, text);
            Some(LogRecord { level: s.level(), line })
        },
    }
}

/// Handles a diagnostic event as the native API reports it, with its raw
/// severity and category bits.
pub fn handle_diagnostic(
    severity: u32,
    types: u32,
    id_number: i32,
    id_name: Option<&str>,
    message: Option<&str>,
) -> (r: Option<LogRecord>)
    ensures
        severity_of(severity) is None ==> r is None,
        severity_of(severity) is Some ==> r is Some && r->Some_0.level == level_of(
            severity_of(severity)->Some_0,
        ) && r->Some_0.line@ == diagnostic_line(
            message_type_text(types),
            opt_text(id_name),
            id_number,
            opt_text(message),
        ),
{
    let text = type_flags_text(types);
    route_diagnostic(severity, text.as_str(), id_number, id_name, message)
}

/// Severity routing: an error event is written at error level, a warning at
/// warn level, an info event at debug level and a verbose one at trace
/// level; any other raw value is no severity, and its event writes nothing.
pub proof fn lemma_severity_routing(raw: u32)
    ensures
        severity_of(0x1000) == Some(Severity::Error) && level_of(Severity::Error) == LogLevel::Error,
        severity_of(0x100) == Some(Severity::Warning) && level_of(Severity::Warning)
            == LogLevel::Warn,
        severity_of(0x10) == Some(Severity::Info) && level_of(Severity::Info) == LogLevel::Debug,
        severity_of(0x1) == Some(Severity::Verbose) && level_of(Severity::Verbose)
            == LogLevel::Trace,
        raw != 0x1 && raw != 0x10 && raw != 0x100 && raw != 0x1000 ==> severity_of(raw) is None,
{
}

} // verus!
