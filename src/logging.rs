//! The service's log line: the fields an event records, how they are
//! summarised, and the fixed layout of the line.
use crate::context::{generate_trace_id, is_lower_hex};
use crate::json::same_text;
use crate::middleware::{decimal_of, decimal_text};
use vstd::prelude::*;

verus! {

/// The word for a response code in the log line.
pub open spec fn status_text_of(code: Seq<char>) -> Seq<char> {
    if code == "2001400"@ {
        "SUCCESS"@
    } else if code == "4041400"@ {
        "NOT_FOUND"@
    } else if code == "4001400"@ {
        "VALIDATION_ERROR"@
    } else if code == "5001400"@ {
        "INTERNAL_ERROR"@
    } else {
        "UNKNOWN"@
    }
}

pub fn get_status_text(code: &str) -> (r: &'static str)
    ensures
        r@ == status_text_of(code@),
{
    if same_text(code, "2001400") {
        "SUCCESS"
    } else if same_text(code, "4041400") {
        "NOT_FOUND"
    } else if same_text(code, "4001400") {
        "VALIDATION_ERROR"
    } else if same_text(code, "5001400") {
        "INTERNAL_ERROR"
    } else {
        "UNKNOWN"
    }
}

/// The text with every space made an underscore.
pub open spec fn underscored(s: Seq<char>) -> Seq<char> {
    Seq::new(s.len(), |i: int| if s[i] == ' ' { '_' } else { s[i] })
}

pub fn replace_spaces(s: &str) -> (r: String)
    ensures
        r@ == underscored(s@),
{
    let n = s.unicode_len();
    let mut r = String::new();
    let mut i: usize = 0;
    while i < n
        invariant
            n == s@.len(),
            0 <= i <= n,
            r@.len() == i,
            forall|j: int| 0 <= j < i ==> #[trigger] r@[j] == if s@[j] == ' ' { '_' } else { s@[j] },
        decreases n - i,
    {
        proof {
            reveal_strlit("_");
        }
        if s.get_char(i) == ' ' {
            r = r.concat("_");
        } else {
            r = r.concat(s.substring_char(i, i + 1));
        }
        i = i + 1;
    }
    assert(r@ =~= underscored(s@));
    r
}

/// The text in upper case, as std's Unicode case mapping gives it.
pub uninterp spec fn upper_of(s: Seq<char>) -> Seq<char>;

/// Relies on str::to_uppercase: the result depends on the characters alone.
#[verifier::external_body]
fn to_upper(s: &str) -> (r: String)
    ensures
        r@ == upper_of(s@),
{
    s.to_uppercase()
}

/// The text with all leading and trailing double quotes removed.
pub open spec fn trim_quotes(s: Seq<char>) -> Seq<char>
    decreases s.len(),
{
    if s.len() > 0 && s[0] == '"' {
        trim_quotes(s.drop_first())
    } else if s.len() > 0 && s.last() == '"' {
        trim_quotes(s.drop_last())
    } else {
        s
    }
}

pub fn trim_matches_quote(s: &str) -> (r: String)
    ensures
        r@ == trim_quotes(s@),
{
    let n = s.unicode_len();
    let mut a: usize = 0;
    assert(s@.subrange(0, n as int) =~= s@);
    while a < n && s.get_char(a) == '"'
        invariant
            n == s@.len(),
            0 <= a <= n,
            trim_quotes(s@) == trim_quotes(s@.subrange(a as int, n as int)),
        decreases n - a,
    {
        assert(s@.subrange(a as int, n as int).drop_first() =~= s@.subrange(a + 1, n as int));
        a = a + 1;
    }
    let mut b: usize = n;
    while b > a && s.get_char(b - 1) == '"'
        invariant
            n == s@.len(),
            0 <= a <= b <= n,
            a < b ==> s@[a as int] != '"',
            trim_quotes(s@) == trim_quotes(s@.subrange(a as int, b as int)),
        decreases b - a,
    {
        assert(s@.subrange(a as int, b as int).drop_last() =~= s@.subrange(a as int, b - 1));
        b = b - 1;
    }
    String::from_str(s.substring_char(a, b))
}

/// The fields a log event records.
#[derive(Debug, Clone)]
pub struct LogRecord {
    pub message: String,
    pub duration: u64,
    pub user_id: String,
    pub response_code: String,
}

impl LogRecord {
    /// No message, no duration, no user, and the success code.
    pub fn new() -> (r: LogRecord)
        ensures
            r.message@ == Seq::<char>::empty(),
            r.duration == 0,
            r.user_id@ == Seq::<char>::empty(),
            r.response_code@ == "2001400"@,
    {
        LogRecord {
            message: String::new(),
            duration: 0,
            user_id: String::new(),
            response_code: String::from_str("2001400"),
        }
    }

    /// Records a text field: `message`, `user_id` and `response_code` are kept.
    pub fn record_str(&mut self, field: &str, value: &str)
        ensures
            final(self).duration == old(self).duration,
            final(self).message@ == if field@ == "message"@ {
                value@
            } else {
                old(self).message@
            },
            final(self).user_id@ == if field@ == "user_id"@ {
                value@
            } else {
                old(self).user_id@
            },
            final(self).response_code@ == if field@ == "response_code"@ {
                value@
            } else {
                old(self).response_code@
            },
    {
        proof {
            reveal_strlit("message");
            reveal_strlit("user_id");
            reveal_strlit("response_code");
            assert("message"@[0] != "user_id"@[0]);
            assert("message"@ != "user_id"@);
            assert("message"@.len() != "response_code"@.len());
            assert("user_id"@.len() != "response_code"@.len());
        }
        if same_text(field, "message") {
            self.message = String::from_str(value);
        } else if same_text(field, "user_id") {
            self.user_id = String::from_str(value);
        } else if same_text(field, "response_code") {
            self.response_code = String::from_str(value);
        }
    }

    /// Records a number: `duration` or `response_time_ms` is the duration, a
    /// numeric `user_id` is kept in decimal.
    pub fn record_u64(&mut self, field: &str, value: u64)
        ensures
            final(self).message@ == old(self).message@,
            final(self).response_code@ == old(self).response_code@,
            final(self).duration == if field@ == "duration"@ || field@ == "response_time_ms"@ {
                value
            } else {
                old(self).duration
            },
            final(self).user_id@ == if field@ == "user_id"@ {
                decimal_of(value as nat)
            } else {
                old(self).user_id@
            },
    {
        proof {
            reveal_strlit("duration");
            reveal_strlit("response_time_ms");
            reveal_strlit("user_id");
            assert("duration"@.len() != "user_id"@.len());
            assert("response_time_ms"@.len() != "user_id"@.len());
        }
        if same_text(field, "duration") || same_text(field, "response_time_ms") {
            self.duration = value;
        } else if same_text(field, "user_id") {
            self.user_id = decimal_text(value);
        }
    }

    /// Records a value in its debug form: only `message` is kept, without
    /// surrounding quotes.
    pub fn record_debug(&mut self, field: &str, formatted: &str)
        ensures
            final(self).duration == old(self).duration,
            final(self).user_id@ == old(self).user_id@,
            final(self).response_code@ == old(self).response_code@,
            final(self).message@ == if field@ == "message"@ {
                trim_quotes(formatted@)
            } else {
                old(self).message@
            },
    {
        if same_text(field, "message") {
            self.message = trim_matches_quote(formatted);
        }
    }
}

/// The operation of a log line: the message with underscores for spaces in
/// upper case, or `UNKNOWN_OPERATION`.
pub open spec fn operation_of(message: Seq<char>) -> Seq<char> {
    if message.len() == 0 {
        "UNKNOWN_OPERATION"@
    } else {
        upper_of(underscored(message))
    }
}

/// `Y` for a code of the 2xx family, else `N`.
pub open spec fn success_flag_of(code: Seq<char>) -> Seq<char> {
    if code.len() > 0 && code[0] == '2' {
        "Y"@
    } else {
        "N"@
    }
}

pub open spec fn additional_info_of(user_id: Seq<char>) -> Seq<char> {
    if user_id.len() == 0 {
        "[]"@
    } else {
        "[USER_ID: "@ + user_id + "]"@
    }
}

/// Where an event happened: the identifiers and the labels around it.
#[derive(Debug, Clone)]
pub struct LogScope {
    pub trace_id: String,
    pub span_id: String,
    pub parent_span_id: String,
    pub timestamp: String,
    pub thread_name: String,
    pub level: String,
}

/// The log line of an event whose operation is already computed.
pub open spec fn log_line_with(scope: LogScope, operation: Seq<char>, record: LogRecord) -> Seq<
    char,
> {
    "[plug-and-plant-service] - ["@ + scope.trace_id@ + ", "@ + scope.span_id@ + ", "@
        + scope.parent_span_id@ + "] "@ + scope.timestamp@ + " ["@ + scope.thread_name@ + "] "@
        + scope.level@ + " PLUG-AND-PLANT - [PLUG-AND-PLANT] ("@ + operation + ","@ + decimal_of(record.duration as nat) + "ms,"@ + success_flag_of(
        record.response_code@,
    ) + ","@ + record.response_code@ + "["@ + status_text_of(record.response_code@) + "]) "@
        + additional_info_of(record.user_id@) + "\n"@
}

pub open spec fn log_line_of(scope: LogScope, record: LogRecord) -> Seq<char> {
    log_line_with(scope, operation_of(record.message@), record)
}

/// The formatter of the service's log lines.
pub struct CustomFormatter;

impl CustomFormatter {
    /// The log line of an event.
    pub fn format_event(&self, scope: &LogScope, record: &LogRecord) -> (r: String)
        ensures
            r@ == log_line_of(*scope, *record),
    {
        let operation = if record.message.unicode_len() == 0 {
            String::from_str("UNKNOWN_OPERATION")
        } else {
            to_upper(replace_spaces(record.message.as_str()).as_str())
        };
        self.format_with_operation(scope, operation.as_str(), record)
    }

    /// The log line of an event, given its operation.
    pub fn format_with_operation(&self, scope: &LogScope, operation: &str, record: &LogRecord) -> (r:
        String)
        ensures
            r@ == log_line_with(*scope, operation@, *record),
    {
        let code = record.response_code.as_str();
        let success = if code.unicode_len() > 0 && code.get_char(0) == '2' {
            "Y"
        } else {
            "N"
        };
        let info = if record.user_id.unicode_len() == 0 {
            String::from_str("[]")
        } else {
            String::from_str("[USER_ID: ").concat(record.user_id.as_str()).concat("]")
        };
        let head = String::from_str("[plug-and-plant-service] - [").concat(
            scope.trace_id.as_str(),
        ).concat(", ").concat(scope.span_id.as_str()).concat(", ").concat(
            scope.parent_span_id.as_str(),
        ).concat("] ").concat(scope.timestamp.as_str()).concat(" [").concat(
            scope.thread_name.as_str(),
        ).concat("] ").concat(scope.level.as_str());
        let middle = head.concat(" PLUG-AND-PLANT - [PLUG-AND-PLANT] (").concat(operation).concat(
            ",",
        ).concat(decimal_text(record.duration).as_str()).concat("ms,").concat(success).concat(
            ",",
        ).concat(code);
        middle.concat("[").concat(get_status_text(code)).concat("]) ").concat(info.as_str()).concat(
            "\n",
        )
    }
}

/// A span identifier: 16 lowercase hex digits drawn at random.
pub fn generate_span_id() -> (r: String)
    ensures
        r@.len() == 16,
        forall|i: int| 0 <= i < 16 ==> is_lower_hex(#[trigger] r@[i]),
{
    let id = generate_trace_id();
    String::from_str(id.as_str().substring_char(0, 16))
}

/// A parent span identifier: 32 lowercase hex digits drawn at random.
pub fn generate_parent_span_id() -> (r: String)
    ensures
        r@.len() == 32,
        forall|i: int| 0 <= i < 32 ==> is_lower_hex(#[trigger] r@[i]),
{
    let id = generate_trace_id();
    String::from_str(id.as_str().substring_char(0, 32))
}

} // verus!
