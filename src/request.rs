//! The account request payloads and their business rules: an email shape
//! checked by a regular expression, and a password complexity policy.
use crate::json::{find_member, member_of, members_view, JsonField, JsonFieldView};
use crate::taxonomy::{is_three_digit_status, HttpError, HttpErrorCase, HttpErrorView, HttpScenario};
use crate::validator::{names_view, ValidateFieldsJSON};
use vstd::prelude::*;
use vstd::utf8::encode_utf8;

verus! {

/// Whitespace as the regex crate's `\s` reads it (Unicode White_Space).
pub open spec fn is_regex_space(c: char) -> bool {
    let u = c as u32;
    (0x09 <= u && u <= 0x0d) || u == 0x20 || u == 0x85 || u == 0xa0 || u == 0x1680 || (0x2000 <= u
        && u <= 0x200a) || u == 0x2028 || u == 0x2029 || u == 0x202f || u == 0x205f || u == 0x3000
}

/// A character of the class `[^\s@]`.
pub open spec fn is_email_char(c: char) -> bool {
    !is_regex_space(c) && c != '@'
}

/// The strings that `^[^\s@]+@[^\s@]+\.[^\s@]+$` matches: one `@` with text
/// before it, a `.` after it with text on both sides, and no whitespace.
pub open spec fn email_shape(s: Seq<char>) -> bool {
    exists|a: int, d: int|
        0 < a && a + 1 < d && d + 1 < s.len() && s[a] == '@' && s[d] == '.' && forall|i: int|
            0 <= i < s.len() && i != a ==> is_email_char(#[trigger] s[i])
}

pub const EMAIL_PATTERN: &'static str = "^[^\\s@]+@[^\\s@]+\\.[^\\s@]+$";

/// Relies on regex::Regex::new and Regex::is_match: the email pattern, which
/// compiles, matches exactly the strings of `email_shape`.
#[verifier::external_body]
fn email_regex_matches(pattern: &str, s: &str) -> (r: bool)
    requires
        pattern@ == EMAIL_PATTERN@,
    ensures
        r == email_shape(s@),
{
    match regex::Regex::new(pattern) {
        Ok(re) => re.is_match(s),
        Err(_) => false,
    }
}

/// Whether the text is an email address in the accepted shape.
pub fn is_valid_email(s: &str) -> (r: bool)
    ensures
        r == email_shape(s@),
{
    email_regex_matches(EMAIL_PATTERN, s)
}

pub const MINIMUM_LENGTH: usize = 6;

pub open spec fn has_char_in(s: Seq<char>, lo: char, hi: char) -> bool {
    exists|i: int| 0 <= i < s.len() && lo <= #[trigger] s[i] && s[i] <= hi
}

pub open spec fn is_ascii_alphanumeric(c: char) -> bool {
    ('a' <= c && c <= 'z') || ('A' <= c && c <= 'Z') || ('0' <= c && c <= '9')
}

pub open spec fn has_upper(s: Seq<char>) -> bool {
    has_char_in(s, 'A', 'Z')
}

pub open spec fn has_lower(s: Seq<char>) -> bool {
    has_char_in(s, 'a', 'z')
}

pub open spec fn has_digit(s: Seq<char>) -> bool {
    has_char_in(s, '0', '9')
}

pub open spec fn has_symbol(s: Seq<char>) -> bool {
    exists|i: int| 0 <= i < s.len() && !is_ascii_alphanumeric(#[trigger] s[i])
}

pub open spec fn flag(b: bool) -> nat {
    if b {
        1
    } else {
        0
    }
}

/// How many of the four character classes the password uses.
pub open spec fn classes_met(s: Seq<char>) -> nat {
    flag(has_upper(s)) + flag(has_lower(s)) + flag(has_digit(s)) + flag(has_symbol(s))
}

/// The name reported for a missing class: the last missing one in the order
/// uppercase, lowercase, numeric, non-alphanumeric.
pub open spec fn reported_missing_class(s: Seq<char>) -> Seq<char> {
    if !has_symbol(s) {
        "non-alphanumeric"@
    } else if !has_digit(s) {
        "numeric"@
    } else if !has_lower(s) {
        "lowercase"@
    } else if !has_upper(s) {
        "uppercase"@
    } else {
        Seq::empty()
    }
}

/// The length of a password, in bytes of its UTF-8 encoding.
pub open spec fn password_length(s: Seq<char>) -> int {
    encode_utf8(s).len() as int
}

pub open spec fn length_message() -> Seq<char> {
    "Password must be at least 6 characters"@
}

pub open spec fn complexity_message(missing: Seq<char>) -> Seq<char> {
    "Password does not meet enough complexity requirements. Missing: "@ + missing
}

pub open spec fn password_error(message: Seq<char>) -> HttpErrorView {
    HttpErrorView {
        status: 400,
        scenario: HttpScenario::Register,
        case: HttpErrorCase::ZeroSix,
        error_log: message,
        output: message,
    }
}

/// The outcome of the complexity count: at least three classes pass.
pub open spec fn requirement_count_outcome(count: nat, last: Seq<char>) -> Option<HttpErrorView> {
    if count >= 3 {
        None
    } else {
        Some(password_error(complexity_message(last)))
    }
}

/// The password policy: at least six bytes, then at least three of the four
/// character classes.
pub open spec fn password_outcome(s: Seq<char>) -> Option<HttpErrorView> {
    if password_length(s) < MINIMUM_LENGTH {
        Some(password_error(length_message()))
    } else {
        requirement_count_outcome(classes_met(s), reported_missing_class(s))
    }
}

/// Whether some character of `s` lies in `lo..=hi`.
pub fn contains_char_in(s: &str, lo: char, hi: char) -> (r: bool)
    ensures
        r == has_char_in(s@, lo, hi),
{
    let n = s.unicode_len();
    let mut i: usize = 0;
    while i < n
        invariant
            n == s@.len(),
            0 <= i <= n,
            forall|j: int| 0 <= j < i ==> !(lo <= #[trigger] s@[j] && s@[j] <= hi),
        decreases n - i,
    {
        let c = s.get_char(i);
        if lo <= c && c <= hi {
            return true;
        }
        i = i + 1;
    }
    false
}

/// Whether some character of `s` is not an ASCII letter or digit.
pub fn contains_non_alphanumeric(s: &str) -> (r: bool)
    ensures
        r == has_symbol(s@),
{
    let n = s.unicode_len();
    let mut i: usize = 0;
    while i < n
        invariant
            n == s@.len(),
            0 <= i <= n,
            forall|j: int| 0 <= j < i ==> is_ascii_alphanumeric(#[trigger] s@[j]),
        decreases n - i,
    {
        let c = s.get_char(i);
        if !(('a' <= c && c <= 'z') || ('A' <= c && c <= 'Z') || ('0' <= c && c <= '9')) {
            return true;
        }
        i = i + 1;
    }
    false
}

fn password_failure(message: String) -> (r: HttpError)
    ensures
        r@ == password_error(message@),
        r.wf(),
{
    let copy = message.clone();
    HttpError {
        status: 400,
        scenario: HttpScenario::Register,
        case: HttpErrorCase::ZeroSix,
        error_log: copy,
        output: message,
    }
}

/// Passes when at least three classes are met; otherwise names `last` as the
/// missing class.
pub fn check_requirement_count(count: usize, last: Option<&str>) -> (r: Result<(), HttpError>)
    ensures
        match r {
            Ok(_) => requirement_count_outcome(
                count as nat,
                match last {
                    Some(l) => l@,
                    None => Seq::empty(),
                },
            ) is None,
            Err(e) => requirement_count_outcome(
                count as nat,
                match last {
                    Some(l) => l@,
                    None => Seq::empty(),
                },
            ) == Some(e@) && e.wf(),
        },
{
    if count >= 3 {
        Ok(())
    } else {
        let prefix = String::from_str("Password does not meet enough complexity requirements. Missing: ");
        let message = match last {
            Some(l) => prefix.concat(l),
            None => prefix,
        };
        proof {
            if last is None {
                assert(message@ =~= complexity_message(Seq::empty()));
            }
        }
        Err(password_failure(message))
    }
}

/// Applies the password policy.
pub fn check_password_requirements(password: &str) -> (r: Result<(), HttpError>)
    ensures
        match r {
            Ok(_) => password_outcome(password@) is None,
            Err(e) => password_outcome(password@) == Some(e@) && e.wf(),
        },
{
    let length = password.as_bytes().len();
    assert(length == password_length(password@));
    if length < MINIMUM_LENGTH {
        return Err(password_failure(String::from_str("Password must be at least 6 characters")));
    }
    let uppercase = contains_char_in(password, 'A', 'Z');
    let lowercase = contains_char_in(password, 'a', 'z');
    let numeric = contains_char_in(password, '0', '9');
    let symbol = contains_non_alphanumeric(password);
    let mut matched_count: usize = 0;
    let mut last_unmatched: Option<&str> = None;
    if uppercase {
        matched_count = matched_count + 1;
    } else {
        last_unmatched = Some("uppercase");
    }
    if lowercase {
        matched_count = matched_count + 1;
    } else {
        last_unmatched = Some("lowercase");
    }
    if numeric {
        matched_count = matched_count + 1;
    } else {
        last_unmatched = Some("numeric");
    }
    if symbol {
        matched_count = matched_count + 1;
    } else {
        last_unmatched = Some("non-alphanumeric");
    }
    assert(matched_count as nat == classes_met(password@));
    check_requirement_count(matched_count, last_unmatched)
}

/// A registration payload.
#[derive(Debug, Clone)]
pub struct RegisterRequest {
    pub email: String,
    pub password: String,
}

/// A login payload.
#[derive(Debug, Clone)]
pub struct LoginRequest {
    pub email: String,
    pub password: String,
}

pub struct CredentialsView {
    pub email: Seq<char>,
    pub password: Seq<char>,
}

impl View for RegisterRequest {
    type V = CredentialsView;

    open spec fn view(&self) -> CredentialsView {
        CredentialsView { email: self.email@, password: self.password@ }
    }
}

impl View for LoginRequest {
    type V = CredentialsView;

    open spec fn view(&self) -> CredentialsView {
        CredentialsView { email: self.email@, password: self.password@ }
    }
}

/// Member `name` read as a string, or why it cannot be.
pub open spec fn text_member(m: Seq<(Seq<char>, JsonFieldView)>, name: Seq<char>) -> Result<
    Seq<char>,
    Seq<char>,
> {
    match member_of(m, name) {
        Some(JsonFieldView::Text(t)) => Ok(t),
        None => Err("missing field `"@ + name + "`"@),
        Some(_) => Err("invalid type for field `"@ + name + "`, expected a string"@),
    }
}

/// Both credential members, email first.
pub open spec fn credentials_of(m: Seq<(Seq<char>, JsonFieldView)>) -> Result<
    CredentialsView,
    Seq<char>,
> {
    match text_member(m, "email"@) {
        Err(e) => Err(e),
        Ok(email) => match text_member(m, "password"@) {
            Err(e) => Err(e),
            Ok(password) => Ok(CredentialsView { email, password }),
        },
    }
}

pub open spec fn credential_fields() -> Seq<Seq<char>> {
    seq!["email"@, "password"@]
}

pub open spec fn email_error(scenario: HttpScenario) -> HttpErrorView {
    HttpErrorView {
        status: 400,
        scenario,
        case: HttpErrorCase::ZeroOne,
        error_log: "Email is not a valid email!"@,
        output: "Invalid Field Format email"@,
    }
}

fn read_text_member(m: &Vec<(String, JsonField)>, name: &str) -> (r: Result<String, String>)
    ensures
        match r {
            Ok(t) => text_member(members_view(m@), name@) == Ok::<Seq<char>, Seq<char>>(t@),
            Err(e) => text_member(members_view(m@), name@) == Err::<Seq<char>, Seq<char>>(e@),
        },
{
    match find_member(m, name) {
        Some(JsonField::Text(t)) => Ok(t.clone()),
        None => Err(String::from_str("missing field `").concat(name).concat("`")),
        Some(_) => Err(
            String::from_str("invalid type for field `").concat(name).concat("`, expected a string"),
        ),
    }
}

fn read_credentials(m: &Vec<(String, JsonField)>) -> (r: Result<(String, String), String>)
    ensures
        match r {
            Ok(c) => credentials_of(members_view(m@)) == Ok::<CredentialsView, Seq<char>>(
                CredentialsView { email: c.0@, password: c.1@ },
            ),
            Err(e) => credentials_of(members_view(m@)) == Err::<CredentialsView, Seq<char>>(e@),
        },
{
    let email = match read_text_member(m, "email") {
        Ok(t) => t,
        Err(e) => return Err(e),
    };
    let password = match read_text_member(m, "password") {
        Ok(t) => t,
        Err(e) => return Err(e),
    };
    Ok((email, password))
}

fn credential_field_names() -> (r: Vec<&'static str>)
    ensures
        names_view(r@) == credential_fields(),
{
    let r = vec!["email", "password"];
    assert(names_view(r@) =~= credential_fields());
    r
}

fn invalid_email(scenario: HttpScenario) -> (r: HttpError)
    ensures
        r@ == email_error(scenario),
        r.wf(),
{
    HttpError {
        status: 400,
        scenario,
        case: HttpErrorCase::ZeroOne,
        error_log: String::from_str("Email is not a valid email!"),
        output: String::from_str("Invalid Field Format email"),
    }
}

impl ValidateFieldsJSON for RegisterRequest {
    open spec fn mandatory_fields_spec() -> Seq<Seq<char>> {
        credential_fields()
    }

    open spec fn decode_spec(m: Seq<(Seq<char>, JsonFieldView)>) -> Result<CredentialsView, Seq<char>> {
        credentials_of(m)
    }

    /// The email must have the accepted shape, then the password policy applies.
    open spec fn business_spec(v: CredentialsView) -> Option<HttpErrorView> {
        if !email_shape(v.email) {
            Some(email_error(HttpScenario::Register))
        } else {
            password_outcome(v.password)
        }
    }

    fn get_mandatory_field() -> (r: Vec<&'static str>) {
        credential_field_names()
    }

    fn from_members(m: &Vec<(String, JsonField)>) -> (r: Result<RegisterRequest, String>) {
        match read_credentials(m) {
            Ok((email, password)) => Ok(RegisterRequest { email, password }),
            Err(e) => Err(e),
        }
    }

    fn validate_business_logic(&self) -> (r: Result<(), HttpError>) {
        if !is_valid_email(self.email.as_str()) {
            return Err(invalid_email(HttpScenario::Register));
        }
        check_password_requirements(self.password.as_str())
    }
}

impl ValidateFieldsJSON for LoginRequest {
    open spec fn mandatory_fields_spec() -> Seq<Seq<char>> {
        credential_fields()
    }

    open spec fn decode_spec(m: Seq<(Seq<char>, JsonFieldView)>) -> Result<CredentialsView, Seq<char>> {
        credentials_of(m)
    }

    /// Only the email shape is checked at login.
    open spec fn business_spec(v: CredentialsView) -> Option<HttpErrorView> {
        if !email_shape(v.email) {
            Some(email_error(HttpScenario::Login))
        } else {
            None
        }
    }

    fn get_mandatory_field() -> (r: Vec<&'static str>) {
        credential_field_names()
    }

    fn from_members(m: &Vec<(String, JsonField)>) -> (r: Result<LoginRequest, String>) {
        match read_credentials(m) {
            Ok((email, password)) => Ok(LoginRequest { email, password }),
            Err(e) => Err(e),
        }
    }

    fn validate_business_logic(&self) -> (r: Result<(), HttpError>) {
        if !is_valid_email(self.email.as_str()) {
            return Err(invalid_email(HttpScenario::Login));
        }
        Ok(())
    }
}

/// A registration whose email is well formed and whose password is shorter
/// than six bytes fails on the length, whatever characters the password has.
pub proof fn lemma_short_password_fails_on_length(email: Seq<char>, password: Seq<char>)
    requires
        email_shape(email),
        password_length(password) < MINIMUM_LENGTH,
    ensures
        RegisterRequest::business_spec(CredentialsView { email, password }) == Some(
            password_error(length_message()),
        ),
{
}

/// A password of at least six bytes passes the policy exactly when it uses
/// at least three of the four character classes; so does a registration
/// with a well-formed email.
pub proof fn lemma_complexity_threshold(email: Seq<char>, password: Seq<char>)
    requires
        password_length(password) >= MINIMUM_LENGTH,
    ensures
        password_outcome(password) is None <==> classes_met(password) >= 3,
        classes_met(password) <= 2 ==> password_outcome(password) == Some(
            password_error(complexity_message(reported_missing_class(password))),
        ),
        email_shape(email) ==> (RegisterRequest::business_spec(CredentialsView { email, password })
            is None <==> classes_met(password) >= 3),
{
}

} // verus!
