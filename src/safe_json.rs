//! Typed extraction: from the raw body of a request to a validated payload,
//! or the first structured error met on the way.
use crate::json::{json_reading_of, parse_payload, JsonFieldView, JsonPayload};
use crate::taxonomy::{HttpError, HttpErrorCase, HttpErrorView, HttpScenario};
use crate::validator::{
    field_missing, lemma_reports_first_missing_field, missing_field_message,
    required_fields_outcome, ValidateFieldsJSON,
};
use vstd::prelude::*;

verus! {

/// A payload that passed every extraction step.
pub struct SafeJson<T>(pub T);

pub open spec fn register_path() -> Seq<char> {
    "/account/register"@
}

pub open spec fn login_path() -> Seq<char> {
    "/account/login"@
}

/// The scenario that extraction errors on a path are reported under: the
/// operation the path serves, else the default flow.
pub open spec fn scenario_of_path(path: Seq<char>) -> HttpScenario {
    if path == register_path() {
        HttpScenario::Register
    } else if path == login_path() {
        HttpScenario::Login
    } else {
        HttpScenario::Index
    }
}

pub fn path_to_scenario(path: &str) -> (r: HttpScenario)
    ensures
        r == scenario_of_path(path@),
{
    if crate::json::same_text(path, "/account/register") {
        HttpScenario::Register
    } else if crate::json::same_text(path, "/account/login") {
        HttpScenario::Login
    } else {
        HttpScenario::Index
    }
}

pub open spec fn starts_with(s: Seq<char>, prefix: Seq<char>) -> bool {
    prefix.len() <= s.len() && s.subrange(0, prefix.len() as int) == prefix
}

/// Whether `s` begins with `prefix`.
pub fn has_prefix(s: &str, prefix: &str) -> (r: bool)
    ensures
        r == starts_with(s@, prefix@),
{
    let n = prefix.unicode_len();
    if n > s.unicode_len() {
        return false;
    }
    let mut i: usize = 0;
    while i < n
        invariant
            n == prefix@.len(),
            n <= s@.len(),
            0 <= i <= n,
            forall|j: int| 0 <= j < i ==> s@[j] == prefix@[j],
        decreases n - i,
    {
        if s.get_char(i) != prefix.get_char(i) {
            return false;
        }
        i = i + 1;
    }
    assert(s@.subrange(0, n as int) =~= prefix@);
    true
}

pub open spec fn bad_request(scenario: HttpScenario, log: Seq<char>, output: Seq<char>) -> HttpErrorView {
    HttpErrorView { status: 400, scenario, case: HttpErrorCase::ZeroOne, error_log: log, output }
}

pub open spec fn json_content_type() -> Seq<char> {
    "application/json"@
}

pub open spec fn invalid_format() -> Seq<char> {
    "Invalid JSON format"@
}

/// Steps four to six, on a document that parsed: mandatory fields, then the
/// typed reading, then the business rules.
pub open spec fn payload_outcome<T: ValidateFieldsJSON>(
    scenario: HttpScenario,
    p: Option<Seq<(Seq<char>, JsonFieldView)>>,
) -> Result<T::V, HttpErrorView> {
    match required_fields_outcome(p, T::mandatory_fields_spec()) {
        Err(msg) => Err(bad_request(scenario, msg, msg)),
        Ok(_) => match T::decode_spec(p.unwrap()) {
            Err(d) => Err(bad_request(scenario, "Invalid JSON data: "@ + d, invalid_format())),
            Ok(v) => match T::business_spec(v) {
                Some(e) => Err(e),
                None => Ok(v),
            },
        },
    }
}

/// All six steps: the body was read (`None` where reading failed), the
/// content type is JSON, the bytes parse, then `payload_outcome`.
pub open spec fn extraction_outcome<T: ValidateFieldsJSON>(
    path: Seq<char>,
    content_type: Seq<char>,
    body: Option<Seq<u8>>,
) -> Result<T::V, HttpErrorView> {
    let scenario = scenario_of_path(path);
    match body {
        None => Err(bad_request(scenario, "Failed to read request body"@, "Invalid request body"@)),
        Some(b) => if !starts_with(content_type, json_content_type()) {
            Err(
                bad_request(
                    scenario,
                    "Missing Content-Type: application/json header"@,
                    "Missing Content-Type: application/json header"@,
                ),
            )
        } else {
            match json_reading_of(b) {
                Err(d) => Err(bad_request(scenario, "Invalid JSON syntax: "@ + d, invalid_format())),
                Ok(p) => payload_outcome::<T>(scenario, p),
            }
        },
    }
}

fn bad_request_error(scenario: HttpScenario, log: String, output: String) -> (r: HttpError)
    ensures
        r@ == bad_request(scenario, log@, output@),
        r.status == 400,
{
    HttpError { status: 400, scenario, case: HttpErrorCase::ZeroOne, error_log: log, output }
}

/// Runs the mandatory-field check, the typed reading and the business rules
/// on a parsed document, in that order.
pub fn extract_from_payload<T: ValidateFieldsJSON>(scenario: HttpScenario, payload: &JsonPayload) -> (r:
    Result<T, HttpError>)
    ensures
        match r {
            Ok(v) => payload_outcome::<T>(scenario, payload@) == Ok::<T::V, HttpErrorView>(v@),
            Err(e) => payload_outcome::<T>(scenario, payload@) == Err::<T::V, HttpErrorView>(e@)
                && e.status == 400,
        },
{
    if let Err(validation_error) = T::validate_required_fields(payload) {
        let copy = validation_error.clone();
        return Err(bad_request_error(scenario, copy, validation_error));
    }
    let members = match payload {
        JsonPayload::Object(m) => m,
        JsonPayload::NotObject => {
            let message = String::from_str("Payload must be a JSON object");
            return Err(bad_request_error(scenario, message.clone(), message));
        },
    };
    let value = match T::from_members(members) {
        Ok(v) => v,
        Err(d) => {
            let log = String::from_str("Invalid JSON data: ").concat(d.as_str());
            return Err(bad_request_error(scenario, log, String::from_str("Invalid JSON format")));
        },
    };
    match value.validate_business_logic() {
        Err(e) => Err(e),
        Ok(_) => Ok(value),
    }
}

/// Turns a request into a validated payload. `content_type` is the header's
/// text where it is present and readable; `body` is `None` where reading the
/// body failed.
pub fn from_request<T: ValidateFieldsJSON>(
    path: &str,
    content_type: Option<&str>,
    body: Option<&[u8]>,
) -> (r: Result<SafeJson<T>, HttpError>)
    ensures
        match r {
            Ok(v) => extraction_outcome::<T>(
                path@,
                match content_type {
                    Some(c) => c@,
                    None => Seq::empty(),
                },
                match body {
                    Some(b) => Some(b@),
                    None => None,
                },
            ) == Ok::<T::V, HttpErrorView>(v.0@),
            Err(e) => extraction_outcome::<T>(
                path@,
                match content_type {
                    Some(c) => c@,
                    None => Seq::empty(),
                },
                match body {
                    Some(b) => Some(b@),
                    None => None,
                },
            ) == Err::<T::V, HttpErrorView>(e@) && e.status == 400,
        },
{
    let scenario = path_to_scenario(path);
    let bytes = match body {
        Some(b) => b,
        None => {
            let log = String::from_str("Failed to read request body");
            return Err(bad_request_error(scenario, log, String::from_str("Invalid request body")));
        },
    };
    let declared = match content_type {
        Some(c) => c,
        None => "",
    };
    proof {
        reveal_strlit("");
        assert(declared@ =~= match content_type {
            Some(c) => c@,
            None => Seq::empty(),
        });
    }
    if !has_prefix(declared, "application/json") {
        let message = String::from_str("Missing Content-Type: application/json header");
        return Err(bad_request_error(scenario, message.clone(), message));
    }
    let payload = match parse_payload(bytes) {
        Ok(p) => p,
        Err(d) => {
            let log = String::from_str("Invalid JSON syntax: ").concat(d.as_str());
            return Err(bad_request_error(scenario, log, String::from_str("Invalid JSON format")));
        },
    };
    match extract_from_payload::<T>(scenario, &payload) {
        Ok(v) => Ok(SafeJson(v)),
        Err(e) => Err(e),
    }
}

/// A payload that lacks a declared field fails extraction with the
/// mandatory-field error of the first missing field, so the business rules
/// never get to report instead.
pub proof fn lemma_missing_field_precedes_rules<T: ValidateFieldsJSON>(
    path: Seq<char>,
    content_type: Seq<char>,
    b: Seq<u8>,
    m: Seq<(Seq<char>, JsonFieldView)>,
    k: int,
)
    requires
        starts_with(content_type, json_content_type()),
        json_reading_of(b) == Ok::<Option<Seq<(Seq<char>, JsonFieldView)>>, Seq<char>>(Some(m)),
        0 <= k < T::mandatory_fields_spec().len(),
        field_missing(m, T::mandatory_fields_spec()[k]),
    ensures
        exists|j: int|
            0 <= j <= k && field_missing(m, #[trigger] T::mandatory_fields_spec()[j])
                && extraction_outcome::<T>(path, content_type, Some(b)) == Err::<
                T::V,
                HttpErrorView,
            >(
                bad_request(
                    scenario_of_path(path),
                    missing_field_message(T::mandatory_fields_spec()[j]),
                    missing_field_message(T::mandatory_fields_spec()[j]),
                ),
            ),
{
    let names = T::mandatory_fields_spec();
    lemma_reports_first_missing_field(m, names);
    assert(!(forall|j: int| 0 <= j < names.len() ==> !field_missing(m, #[trigger] names[j])));
    let j = choose|j: int|
        0 <= j < names.len() && field_missing(m, names[j]) && (forall|i: int|
            0 <= i < j ==> !field_missing(m, #[trigger] names[i]))
            && required_fields_outcome(Some(m), names) == Err::<(), Seq<char>>(
            missing_field_message(#[trigger] names[j]),
        );
    if j > k {
        assert(!field_missing(m, names[k]));
    }
}

/// A payload whose declared fields are all present but cannot be read as the
/// typed value fails with the reading error, before any business rule runs.
pub proof fn lemma_type_shape_precedes_rules<T: ValidateFieldsJSON>(
    scenario: HttpScenario,
    m: Seq<(Seq<char>, JsonFieldView)>,
)
    requires
        forall|j: int|
            0 <= j < T::mandatory_fields_spec().len() ==> !field_missing(
                m,
                #[trigger] T::mandatory_fields_spec()[j],
            ),
        T::decode_spec(m) is Err,
    ensures
        payload_outcome::<T>(scenario, Some(m)) == Err::<T::V, HttpErrorView>(
            bad_request(
                scenario,
                "Invalid JSON data: "@ + T::decode_spec(m)->Err_0,
                invalid_format(),
            ),
        ),
{
    lemma_reports_first_missing_field(m, T::mandatory_fields_spec());
}

} // verus!
