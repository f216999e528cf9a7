//! The account flows around the data store: what registration and login
//! decide from each store answer, how their failures map onto the response
//! taxonomy, and the success responses.
use crate::context::is_lower_hex;
use crate::json::{json_quote, json_quoted_of};
use crate::taxonomy::{
    response_code_of, success_code, HttpError, HttpErrorCase, HttpErrorView, HttpScenario,
};
use vstd::prelude::*;

verus! {

/// A stored account; times are seconds since the Unix epoch.
#[derive(Debug, Clone)]
pub struct Account {
    pub email: String,
    pub password: String,
    pub utc_create: i64,
    pub utc_modified: i64,
}

/// A session row; times are seconds since the Unix epoch.
#[derive(Debug, Clone)]
pub struct Session {
    pub id: String,
    pub account_id: i32,
    pub expiry_time: i64,
    pub utc_create: i64,
    pub utc_modified: i64,
}

#[derive(Debug, Clone)]
pub struct SavedAccount {
    pub email: String,
}

#[derive(Debug, Clone)]
pub struct LoggedAccount {
    pub email: String,
    pub session_id: String,
    pub session_expire_time: String,
}

#[derive(Debug, Clone)]
pub struct RegisterResult {
    pub saved_account: SavedAccount,
}

#[derive(Debug, Clone)]
pub struct LoginResult {
    pub logged_account: LoggedAccount,
}

/// A successful answer: its code and message, and the payload whose fields
/// sit beside them in the JSON body.
#[derive(Debug, Clone)]
pub struct ApiResponse<T> {
    pub response_code: String,
    pub response_message: String,
    pub data: T,
}

/// Failures of the account flows.
#[derive(Debug, Clone)]
pub enum AppError {
    EmailRegistered { account: Account },
    SqlxError { msg: String },
    InvalidCredentials { msg: String },
}

/// The SHA-256 digest of a text's UTF-8 bytes, in lowercase hexadecimal.
pub uninterp spec fn sha256_hex_of(s: Seq<char>) -> Seq<char>;

/// Relies on sha2::Sha256::digest over the text's bytes, printed with `{:x}`:
/// two lowercase hex digits for each of the 32 bytes.
#[verifier::external_body]
fn sha256_hex(s: &str) -> (r: String)
    ensures
        r@ == sha256_hex_of(s@),
        r@.len() == 64,
        forall|i: int| 0 <= i < 64 ==> is_lower_hex(#[trigger] r@[i]),
{
    format!("{:x}", <sha2::Sha256 as sha2::Digest>::digest(s.as_bytes()))
}

/// The stored form of a password.
pub fn hash_password(password: &str) -> (r: String)
    ensures
        r@ == sha256_hex_of(password@),
        r@.len() == 64,
        forall|i: int| 0 <= i < 64 ==> is_lower_hex(#[trigger] r@[i]),
{
    sha256_hex(password)
}

/// What registration does after looking the email up: a failed query and a
/// known email stop it; an unknown email lets it go on to insert.
pub fn register_after_lookup(lookup: Result<Option<Account>, String>) -> (r: Result<(), AppError>)
    ensures
        match lookup {
            Err(e) => r matches Err(AppError::SqlxError { msg }) && msg@ == "Failed to query: "@
                + e@,
            Ok(Some(a)) => r matches Err(AppError::EmailRegistered { account }) && account == a,
            Ok(None) => r is Ok,
        },
{
    match lookup {
        Err(e) => Err(AppError::SqlxError { msg: String::from_str("Failed to query: ").concat(e.as_str()) }),
        Ok(Some(account)) => Err(AppError::EmailRegistered { account }),
        Ok(None) => Ok(()),
    }
}

/// What registration returns after the insert.
pub fn register_after_insert(email: &str, insert: Result<(), String>) -> (r: Result<
    SavedAccount,
    AppError,
>)
    ensures
        match insert {
            Err(e) => r matches Err(AppError::SqlxError { msg }) && msg@ == "Failed to insert: "@
                + e@,
            Ok(_) => r matches Ok(s) && s.email@ == email@,
        },
{
    match insert {
        Err(e) => Err(AppError::SqlxError { msg: String::from_str("Failed to insert: ").concat(e.as_str()) }),
        Ok(_) => Ok(SavedAccount { email: String::from_str(email) }),
    }
}

/// What login returns from the lookup by email and password hash.
pub fn login_after_lookup(lookup: Result<Option<Account>, String>) -> (r: Result<
    LoggedAccount,
    AppError,
>)
    ensures
        match lookup {
            Err(e) => r matches Err(AppError::SqlxError { msg }) && msg@ == "Failed to query: "@
                + e@,
            Ok(None) => r matches Err(AppError::InvalidCredentials { msg }) && msg@
                == "Invalid Account"@,
            Ok(Some(a)) => r matches Ok(l) && l.email@ == a.email@ && l.session_id@ == "test"@
                && l.session_expire_time@ == "test"@,
        },
{
    match lookup {
        Err(e) => Err(AppError::SqlxError { msg: String::from_str("Failed to query: ").concat(e.as_str()) }),
        Ok(None) => Err(AppError::InvalidCredentials { msg: String::from_str("Invalid Account") }),
        Ok(Some(account)) => Ok(
            LoggedAccount {
                email: account.email,
                session_id: String::from_str("test"),
                session_expire_time: String::from_str("test"),
            },
        ),
    }
}

pub open spec fn app_error_detail(e: AppError) -> Seq<char> {
    match e {
        AppError::EmailRegistered { account } => account.email@,
        AppError::SqlxError { msg } => msg@,
        AppError::InvalidCredentials { msg } => msg@,
    }
}

/// How a registration failure is answered. A known email is a 400 with a
/// vague message; the store's failures are 500s.
pub open spec fn register_error_of(e: AppError) -> HttpErrorView {
    match e {
        AppError::EmailRegistered { account } => HttpErrorView {
            status: 400,
            scenario: HttpScenario::Register,
            case: HttpErrorCase::ZeroThree,
            error_log: "Email already registered: "@ + account.email@,
            output: "Email already registered"@,
        },
        AppError::SqlxError { msg } => HttpErrorView {
            status: 500,
            scenario: HttpScenario::Register,
            case: HttpErrorCase::ZeroOne,
            error_log: msg@,
            output: "Internal Server Error"@,
        },
        AppError::InvalidCredentials { msg } => HttpErrorView {
            status: 500,
            scenario: HttpScenario::Register,
            case: HttpErrorCase::ZeroOne,
            error_log: "Unexpected error: "@ + msg@,
            output: "Internal Server error"@,
        },
    }
}

/// How a login failure is answered. Bad credentials get one generic 400 that
/// does not say which field was wrong.
pub open spec fn login_error_of(e: AppError) -> HttpErrorView {
    match e {
        AppError::InvalidCredentials { .. } => HttpErrorView {
            status: 400,
            scenario: HttpScenario::Login,
            case: HttpErrorCase::ZeroFour,
            error_log: "Invalid email/ password"@,
            output: "Invalid email/password"@,
        },
        _ => HttpErrorView {
            status: 500,
            scenario: HttpScenario::Login,
            case: HttpErrorCase::ZeroOne,
            error_log: "Unexpected error: "@ + app_error_detail(e),
            output: "Internal Server error"@,
        },
    }
}

fn error_detail(e: &AppError) -> (r: &String)
    ensures
        r@ == app_error_detail(*e),
{
    match e {
        AppError::EmailRegistered { account } => &account.email,
        AppError::SqlxError { msg } => msg,
        AppError::InvalidCredentials { msg } => msg,
    }
}

pub fn register_error_to_http(err: AppError) -> (r: HttpError)
    ensures
        r@ == register_error_of(err),
        r.wf(),
{
    match err {
        AppError::EmailRegistered { account } => HttpError {
            status: 400,
            scenario: HttpScenario::Register,
            case: HttpErrorCase::ZeroThree,
            error_log: String::from_str("Email already registered: ").concat(account.email.as_str()),
            output: String::from_str("Email already registered"),
        },
        AppError::SqlxError { msg } => HttpError {
            status: 500,
            scenario: HttpScenario::Register,
            case: HttpErrorCase::ZeroOne,
            error_log: msg,
            output: String::from_str("Internal Server Error"),
        },
        AppError::InvalidCredentials { msg } => HttpError {
            status: 500,
            scenario: HttpScenario::Register,
            case: HttpErrorCase::ZeroOne,
            error_log: String::from_str("Unexpected error: ").concat(msg.as_str()),
            output: String::from_str("Internal Server error"),
        },
    }
}

pub fn login_error_to_http(err: AppError) -> (r: HttpError)
    ensures
        r@ == login_error_of(err),
        r.wf(),
{
    match err {
        AppError::InvalidCredentials { .. } => HttpError {
            status: 400,
            scenario: HttpScenario::Login,
            case: HttpErrorCase::ZeroFour,
            error_log: String::from_str("Invalid email/ password"),
            output: String::from_str("Invalid email/password"),
        },
        _ => {
            let detail = error_detail(&err);
            HttpError {
                status: 500,
                scenario: HttpScenario::Login,
                case: HttpErrorCase::ZeroOne,
                error_log: String::from_str("Unexpected error: ").concat(detail.as_str()),
                output: String::from_str("Internal Server error"),
            }
        },
    }
}

/// The answer to a registration: `2001300` with the saved account, or the
/// mapped failure.
pub fn handle_register_user(outcome: Result<SavedAccount, AppError>) -> (r: Result<
    ApiResponse<RegisterResult>,
    HttpError,
>)
    ensures
        match outcome {
            Ok(s) => r matches Ok(resp) && resp.response_code@ == response_code_of(
                200,
                HttpScenario::Register,
                HttpErrorCase::ZeroZero,
            ) && resp.response_message@ == "Successful"@ && resp.data.saved_account.email@
                == s.email@,
            Err(e) => r matches Err(h) && h@ == register_error_of(e) && h.wf(),
        },
{
    match outcome {
        Ok(saved_account) => Ok(
            ApiResponse {
                response_code: success_code(&HttpScenario::Register),
                response_message: String::from_str("Successful"),
                data: RegisterResult { saved_account },
            },
        ),
        Err(e) => Err(register_error_to_http(e)),
    }
}

/// The answer to a login: `2001400` with the logged account, or the mapped
/// failure.
pub fn handle_login_user(outcome: Result<LoggedAccount, AppError>) -> (r: Result<
    ApiResponse<LoginResult>,
    HttpError,
>)
    ensures
        match outcome {
            Ok(l) => r matches Ok(resp) && resp.response_code@ == response_code_of(
                200,
                HttpScenario::Login,
                HttpErrorCase::ZeroZero,
            ) && resp.response_message@ == "Successful"@ && resp.data.logged_account.email@
                == l.email@ && resp.data.logged_account.session_id@ == l.session_id@
                && resp.data.logged_account.session_expire_time@ == l.session_expire_time@,
            Err(e) => r matches Err(h) && h@ == login_error_of(e) && h.wf(),
        },
{
    match outcome {
        Ok(logged_account) => Ok(
            ApiResponse {
                response_code: success_code(&HttpScenario::Login),
                response_message: String::from_str("Successful"),
                data: LoginResult { logged_account },
            },
        ),
        Err(e) => Err(login_error_to_http(e)),
    }
}

pub open spec fn member_text(name: Seq<char>, value: Seq<char>) -> Seq<char> {
    json_quoted_of(name) + ":"@ + json_quoted_of(value)
}

pub open spec fn success_head(code: Seq<char>, message: Seq<char>) -> Seq<char> {
    "{"@ + member_text("responseCode"@, code) + ","@ + member_text("responseMessage"@, message)
}

fn member(name: &str, value: &str) -> (r: String)
    ensures
        r@ == member_text(name@, value@),
{
    json_quote(name).concat(":").concat(json_quote(value).as_str())
}

impl<T> ApiResponse<T> {
    fn head(&self) -> (r: String)
        ensures
            r@ == success_head(self.response_code@, self.response_message@),
    {
        String::from_str("{").concat(
            member("responseCode", self.response_code.as_str()).as_str(),
        ).concat(",").concat(member("responseMessage", self.response_message.as_str()).as_str())
    }
}

impl ApiResponse<RegisterResult> {
    /// The JSON body: code and message, then the result's fields beside them.
    pub fn render_body(&self) -> (r: String)
        ensures
            r@ == success_head(self.response_code@, self.response_message@) + ","@
                + json_quoted_of("savedAccount"@) + ":{"@ + member_text(
                "email"@,
                self.data.saved_account.email@,
            ) + "}}"@,
    {
        self.head().concat(",").concat(json_quote("savedAccount").as_str()).concat(":{").concat(
            member("email", self.data.saved_account.email.as_str()).as_str(),
        ).concat("}}")
    }
}

impl ApiResponse<LoginResult> {
    /// The JSON body: code and message, then the result's fields beside them.
    pub fn render_body(&self) -> (r: String)
        ensures
            r@ == success_head(self.response_code@, self.response_message@) + ","@
                + json_quoted_of("loggedAccount"@) + ":{"@ + member_text(
                "email"@,
                self.data.logged_account.email@,
            ) + ","@ + member_text("sessionId"@, self.data.logged_account.session_id@) + ","@
                + member_text(
                "sessionExpireTime"@,
                self.data.logged_account.session_expire_time@,
            ) + "}}"@,
    {
        let account = &self.data.logged_account;
        self.head().concat(",").concat(json_quote("loggedAccount").as_str()).concat(":{").concat(
            member("email", account.email.as_str()).as_str(),
        ).concat(",").concat(member("sessionId", account.session_id.as_str()).as_str()).concat(
            ",",
        ).concat(member("sessionExpireTime", account.session_expire_time.as_str()).as_str()).concat(
            "}}",
        )
    }
}

} // verus!
