//! Response taxonomy: a response code is the concatenation of a three-digit
//! HTTP status, a two-digit scenario code and a two-digit case code.
use crate::json::{json_quote, json_quoted_of};
use vstd::prelude::*;

verus! {

/// The business operation that a response belongs to.
#[derive(Debug, Clone, Copy, PartialEq, Eq, Structural)]
pub enum HttpScenario {
    Index,
    Register,
    Login,
}

impl HttpScenario {
    pub open spec fn code_spec(self) -> Seq<char> {
        match self {
            HttpScenario::Index => seq!['0', '0'],
            HttpScenario::Register => seq!['1', '3'],
            HttpScenario::Login => seq!['1', '4'],
        }
    }

    /// The two-digit scenario segment of a response code.
    pub fn get_code(&self) -> (r: String)
        ensures
            r@ == self.code_spec(),
    {
        match self {
            HttpScenario::Index => two_digits('0', '0'),
            HttpScenario::Register => two_digits('1', '3'),
            HttpScenario::Login => two_digits('1', '4'),
        }
    }
}

/// The outcome variant within a scenario.
#[derive(Debug, Clone, Copy, PartialEq, Eq, Structural)]
pub enum HttpErrorCase {
    ZeroZero,
    ZeroOne,
    ZeroThree,
    ZeroFour,
    ZeroSix,
}

impl HttpErrorCase {
    pub open spec fn case_spec(self) -> Seq<char> {
        match self {
            HttpErrorCase::ZeroZero => seq!['0', '0'],
            HttpErrorCase::ZeroOne => seq!['0', '1'],
            HttpErrorCase::ZeroThree => seq!['0', '3'],
            HttpErrorCase::ZeroFour => seq!['0', '4'],
            HttpErrorCase::ZeroSix => seq!['0', '6'],
        }
    }

    /// The two-digit case segment of a response code.
    pub fn get_case(&self) -> (r: String)
        ensures
            r@ == self.case_spec(),
    {
        match self {
            HttpErrorCase::ZeroZero => two_digits('0', '0'),
            HttpErrorCase::ZeroOne => two_digits('0', '1'),
            HttpErrorCase::ZeroThree => two_digits('0', '3'),
            HttpErrorCase::ZeroFour => two_digits('0', '4'),
            HttpErrorCase::ZeroSix => two_digits('0', '6'),
        }
    }
}

pub open spec fn is_digit_char(c: char) -> bool {
    '0' <= c && c <= '9'
}

pub open spec fn digit_char(d: int) -> char {
    ((d + 48) as u8) as char
}

/// The decimal digit `d` as a one-character string.
pub(crate) fn digit_str(d: u16) -> (r: &'static str)
    requires
        d < 10,
    ensures
        r@ == seq![digit_char(d as int)],
{
    proof {
        reveal_strlit("0");
        reveal_strlit("1");
        reveal_strlit("2");
        reveal_strlit("3");
        reveal_strlit("4");
        reveal_strlit("5");
        reveal_strlit("6");
        reveal_strlit("7");
        reveal_strlit("8");
        reveal_strlit("9");
    }
    match d {
        0 => "0",
        1 => "1",
        2 => "2",
        3 => "3",
        4 => "4",
        5 => "5",
        6 => "6",
        7 => "7",
        8 => "8",
        _ => "9",
    }
}

fn digit_value(c: char) -> (d: u16)
    requires
        is_digit_char(c),
    ensures
        d < 10,
        digit_char(d as int) == c,
{
    (c as u32 - 48) as u16
}

fn two_digits(a: char, b: char) -> (r: String)
    requires
        is_digit_char(a),
        is_digit_char(b),
    ensures
        r@ == seq![a, b],
{
    let first = String::from_str(digit_str(digit_value(a)));
    let r = first.concat(digit_str(digit_value(b)));
    assert(r@ =~= seq![a, b]);
    r
}

/// A status that renders as exactly three decimal digits.
pub open spec fn is_three_digit_status(status: u16) -> bool {
    100 <= status && status <= 999
}

/// The three decimal digits of a status, most significant first.
pub open spec fn status_digits(status: u16) -> Seq<char> {
    seq![
        digit_char(status as int / 100),
        digit_char((status as int / 10) % 10),
        digit_char(status as int % 10),
    ]
}

pub open spec fn response_code_of(
    status: u16,
    scenario: HttpScenario,
    case: HttpErrorCase,
) -> Seq<char> {
    status_digits(status) + scenario.code_spec() + case.case_spec()
}

/// Renders a three-digit status as its decimal text.
pub fn status_text(status: u16) -> (r: String)
    requires
        is_three_digit_status(status),
    ensures
        r@ == status_digits(status),
{
    let hundreds = String::from_str(digit_str(status / 100));
    let tens = hundreds.concat(digit_str((status / 10) % 10));
    let r = tens.concat(digit_str(status % 10));
    assert(r@ =~= status_digits(status));
    r
}

/// Composes `{status}{scenario}{case}` in that fixed order.
pub fn compose_response_code(
    status: u16,
    scenario: &HttpScenario,
    case: &HttpErrorCase,
) -> (r: String)
    requires
        is_three_digit_status(status),
    ensures
        r@ == response_code_of(status, *scenario, *case),
        r@.len() == 7,
{
    let head = status_text(status);
    let mid = head.concat(scenario.get_code().as_str());
    let r = mid.concat(case.get_case().as_str());
    r
}

/// A response code has seven characters: three of status, two of scenario
/// and two of case, in that order; equal triples give equal codes.
pub proof fn lemma_response_code_layout(
    status: u16,
    scenario: HttpScenario,
    case: HttpErrorCase,
    status2: u16,
    scenario2: HttpScenario,
    case2: HttpErrorCase,
)
    requires
        is_three_digit_status(status),
    ensures
        response_code_of(status, scenario, case).len() == 7,
        response_code_of(status, scenario, case).subrange(0, 3) == status_digits(status),
        response_code_of(status, scenario, case).subrange(3, 5) == scenario.code_spec(),
        response_code_of(status, scenario, case).subrange(5, 7) == case.case_spec(),
        (status == status2 && scenario == scenario2 && case == case2) ==> response_code_of(
            status,
            scenario,
            case,
        ) == response_code_of(status2, scenario2, case2),
{
    let code = response_code_of(status, scenario, case);
    assert(code.subrange(0, 3) =~= status_digits(status));
    assert(code.subrange(3, 5) =~= scenario.code_spec());
    assert(code.subrange(5, 7) =~= case.case_spec());
}

/// No two scenarios share a code, and no two cases share a code.
pub proof fn lemma_codes_unique_per_axis(
    s1: HttpScenario,
    s2: HttpScenario,
    c1: HttpErrorCase,
    c2: HttpErrorCase,
)
    ensures
        s1 != s2 ==> s1.code_spec() != s2.code_spec(),
        c1 != c2 ==> c1.case_spec() != c2.case_spec(),
{
    if s1 != s2 {
        assert(s1.code_spec() != s2.code_spec()) by {
            assert(s1.code_spec()[0] != s2.code_spec()[0] || s1.code_spec()[1]
                != s2.code_spec()[1]);
        }
    }
    if c1 != c2 {
        assert(c1.case_spec()[1] != c2.case_spec()[1]);
    }
}

/// The code of a successful response: status 200 and the reserved case "00".
pub fn success_code(scenario: &HttpScenario) -> (r: String)
    ensures
        r@ == response_code_of(200, *scenario, HttpErrorCase::ZeroZero),
{
    compose_response_code(200, scenario, &HttpErrorCase::ZeroZero)
}

/// A recovered failure of the pipeline or of a handler. `error_log` is for
/// diagnostics only; `output` is the message the caller sees.
#[derive(Debug, Clone)]
pub struct HttpError {
    pub status: u16,
    pub scenario: HttpScenario,
    pub case: HttpErrorCase,
    pub error_log: String,
    pub output: String,
}

pub struct HttpErrorView {
    pub status: u16,
    pub scenario: HttpScenario,
    pub case: HttpErrorCase,
    pub error_log: Seq<char>,
    pub output: Seq<char>,
}

impl View for HttpError {
    type V = HttpErrorView;

    open spec fn view(&self) -> HttpErrorView {
        HttpErrorView {
            status: self.status,
            scenario: self.scenario,
            case: self.case,
            error_log: self.error_log@,
            output: self.output@,
        }
    }
}

/// An error body around an already quoted code and message.
pub open spec fn error_frame_of(quoted_code: Seq<char>, quoted_message: Seq<char>) -> Seq<char> {
    "{\"responseCode\":"@ + quoted_code + ",\"responseMessage\":"@ + quoted_message + "}"@
}

/// The JSON body of an error response: the code and the user-facing message,
/// nothing else.
pub open spec fn error_body_of(code: Seq<char>, message: Seq<char>) -> Seq<char> {
    error_frame_of(json_quoted_of(code), json_quoted_of(message))
}

/// Frames an error body from the JSON string literals of its code and message.
pub fn frame_error_body(quoted_code: &str, quoted_message: &str) -> (r: String)
    ensures
        r@ == error_frame_of(quoted_code@, quoted_message@),
{
    String::from_str("{\"responseCode\":").concat(quoted_code).concat(
        ",\"responseMessage\":",
    ).concat(quoted_message).concat("}")
}

/// The body of an error response does not depend on its internal log: two
/// errors that differ only there are answered with the same bytes.
pub proof fn lemma_error_log_stays_internal(a: HttpError, b: HttpError)
    requires
        a.status == b.status,
        a.scenario == b.scenario,
        a.case == b.case,
        a.output@ == b.output@,
    ensures
        error_body_of(a.code_spec(), a.output@) == error_body_of(b.code_spec(), b.output@),
{
}

impl HttpError {
    pub open spec fn wf(&self) -> bool {
        is_three_digit_status(self.status)
    }

    pub open spec fn code_spec(&self) -> Seq<char> {
        response_code_of(self.status, self.scenario, self.case)
    }

    pub fn new(
        status: u16,
        scenario: HttpScenario,
        case: HttpErrorCase,
        error_log: String,
        output: String,
    ) -> (r: HttpError)
        ensures
            r@ == (HttpErrorView {
                status,
                scenario,
                case,
                error_log: error_log@,
                output: output@,
            }),
    {
        HttpError { status, scenario, case, error_log, output }
    }

    /// The response code `{status}{scenario}{case}`.
    pub fn response_code(&self) -> (r: String)
        requires
            self.wf(),
        ensures
            r@ == self.code_spec(),
            r@.len() == 7,
    {
        compose_response_code(self.status, &self.scenario, &self.case)
    }

    /// The HTTP status to answer with: the error's own where it is a valid
    /// status, else 500.
    pub fn http_status(&self) -> (r: u16)
        ensures
            r == if is_three_digit_status(self.status) {
                self.status
            } else {
                500
            },
    {
        if 100 <= self.status && self.status <= 999 {
            self.status
        } else {
            500
        }
    }

    /// The JSON body sent for this error; `error_log` never appears in it.
    pub fn render_body(&self) -> (r: String)
        requires
            self.wf(),
        ensures
            r@ == error_body_of(self.code_spec(), self.output@),
    {
        let code = self.response_code();
        frame_error_body(json_quote(code.as_str()).as_str(), json_quote(self.output.as_str()).as_str())
    }
}

} // verus!
