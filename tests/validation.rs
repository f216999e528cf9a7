use plug_and_plant_be_axum_sqlx::json::{find_member, same_text, JsonField, JsonPayload};
use plug_and_plant_be_axum_sqlx::request::{
    check_password_requirements, check_requirement_count, contains_char_in,
    contains_non_alphanumeric, is_valid_email, LoginRequest, RegisterRequest,
};
use plug_and_plant_be_axum_sqlx::taxonomy::{HttpErrorCase, HttpScenario};
use plug_and_plant_be_axum_sqlx::validator::ValidateFieldsJSON;

fn text(s: &str) -> JsonField {
    JsonField::Text(s.to_string())
}

fn object(members: Vec<(&str, JsonField)>) -> JsonPayload {
    JsonPayload::Object(members.into_iter().map(|(k, v)| (k.to_string(), v)).collect())
}

fn members(p: &JsonPayload) -> &Vec<(String, JsonField)> {
    match p {
        JsonPayload::Object(m) => m,
        JsonPayload::NotObject => panic!("expected an object"),
    }
}

#[test]
fn member_lookup() {
    let p = object(vec![("a", JsonField::Null), ("b", text("x")), ("c", JsonField::Other), ("b", text("y"))]);
    let m = members(&p);
    assert!(matches!(find_member(m, "a"), Some(JsonField::Null)));
    assert!(matches!(find_member(m, "b"), Some(JsonField::Text(t)) if t == "x"));
    assert!(matches!(find_member(m, "c"), Some(JsonField::Other)));
    assert!(find_member(m, "d").is_none());
}

#[test]
fn text_equality() {
    assert!(same_text("abc", "abc"));
    assert!(!same_text("abc", "abd"));
    assert!(!same_text("abc", "ab"));
    assert!(same_text("", ""));
}

#[test]
fn required_fields_all_present() {
    assert_eq!(RegisterRequest::get_mandatory_field(), vec!["email", "password"]);
    let p = object(vec![("email", text("a@b.com")), ("password", text("x")), ("extra", JsonField::Other)]);
    assert_eq!(RegisterRequest::validate_required_fields(&p), Ok(()));
}

#[test]
fn required_fields_not_an_object() {
    let p = JsonPayload::NotObject;
    assert_eq!(
        RegisterRequest::validate_required_fields(&p),
        Err("Payload must be a JSON object".to_string())
    );
}

#[test]
fn required_fields_absent_null_or_empty() {
    let cases = [
        (object(vec![("password", text("x"))]), "email"),
        (object(vec![("email", JsonField::Null), ("password", text("x"))]), "email"),
        (object(vec![("email", text("")), ("password", text("x"))]), "email"),
        (object(vec![("email", text("a@b.com"))]), "password"),
        (object(vec![("email", text("a@b.com")), ("password", JsonField::Null)]), "password"),
        (object(vec![("email", text("a@b.com")), ("password", text(""))]), "password"),
    ];
    for (p, field) in cases {
        assert_eq!(
            LoginRequest::validate_required_fields(&p),
            Err(format!("Invalid Mandatory Field {}", field))
        );
    }
}

#[test]
fn required_fields_report_only_the_first_in_declared_order() {
    let p = object(vec![("zzz", JsonField::Other)]);
    assert_eq!(
        RegisterRequest::validate_required_fields(&p),
        Err("Invalid Mandatory Field email".to_string())
    );
}

#[test]
fn required_fields_accept_non_string_values() {
    let p = object(vec![("email", JsonField::Other), ("password", JsonField::Other)]);
    assert_eq!(RegisterRequest::validate_required_fields(&p), Ok(()));
}

#[test]
fn typed_reading_of_members() {
    let p = object(vec![("email", text("a@b.com")), ("password", text("pw"))]);
    let r = RegisterRequest::from_members(members(&p)).unwrap();
    assert_eq!(r.email, "a@b.com");
    assert_eq!(r.password, "pw");
    let p = object(vec![("email", text("a@b.com")), ("password", JsonField::Other)]);
    assert_eq!(
        LoginRequest::from_members(members(&p)).unwrap_err(),
        "invalid type for field `password`, expected a string"
    );
    let p = object(vec![("password", text("pw"))]);
    assert_eq!(LoginRequest::from_members(members(&p)).unwrap_err(), "missing field `email`");
}

#[test]
fn email_shapes() {
    assert!(is_valid_email("a@b.com"));
    assert!(is_valid_email("first.last@sub.example.org"));
    assert!(is_valid_email("a@b.c"));
    assert!(!is_valid_email("not-an-email"));
    assert!(!is_valid_email("@b.com"));
    assert!(!is_valid_email("a@.com"));
    assert!(!is_valid_email("a@b."));
    assert!(!is_valid_email("a@bcom"));
    assert!(!is_valid_email("a b@c.com"));
    assert!(!is_valid_email("a@b@c.com"));
    assert!(!is_valid_email("a@b.c\u{3000}"));
    assert!(!is_valid_email(""));
}

#[test]
fn character_class_scans() {
    assert!(contains_char_in("abC", 'A', 'Z'));
    assert!(!contains_char_in("abc", 'A', 'Z'));
    assert!(contains_char_in("x9", '0', '9'));
    assert!(contains_non_alphanumeric("ab!"));
    assert!(contains_non_alphanumeric("abé"));
    assert!(!contains_non_alphanumeric("aZ09"));
}

#[test]
fn short_passwords_fail_on_length() {
    for pw in ["", "A", "Ab1!", "Ab1!x", "aaaaa"] {
        let e = check_password_requirements(pw).unwrap_err();
        assert_eq!(e.output, "Password must be at least 6 characters");
        assert_eq!(e.error_log, "Password must be at least 6 characters");
        assert_eq!(e.status, 400);
        assert_eq!(e.scenario, HttpScenario::Register);
        assert_eq!(e.case, HttpErrorCase::ZeroSix);
    }
}

#[test]
fn password_length_counts_bytes() {
    // three characters, six bytes: past the length check, then one class only
    let e = check_password_requirements("ééé").unwrap_err();
    assert!(e.output.starts_with("Password does not meet enough complexity requirements. Missing: "));
}

#[test]
fn passwords_with_three_or_more_classes_pass() {
    for pw in ["Abcdef1", "Abcde1!", "abcde1!", "ABCDE1!", "Abcdef!", "Aa1!Aa1!"] {
        assert!(check_password_requirements(pw).is_ok(), "{}", pw);
    }
}

#[test]
fn passwords_with_two_or_fewer_classes_fail() {
    let prefix = "Password does not meet enough complexity requirements. Missing: ";
    for pw in ["abcdefg", "ABCDEFG", "1234567", "!!!!!!!", "Abcdefg", "abc123", "ABC!!!"] {
        let e = check_password_requirements(pw).unwrap_err();
        assert_eq!(e.status, 400);
        assert_eq!(e.case, HttpErrorCase::ZeroSix);
        assert!(e.output.starts_with(prefix), "{}", pw);
        let missing = &e.output[prefix.len()..];
        assert!(["uppercase", "lowercase", "numeric", "non-alphanumeric"].contains(&missing));
    }
}

#[test]
fn requirement_count_threshold() {
    assert!(check_requirement_count(3, None).is_ok());
    assert!(check_requirement_count(4, Some("x")).is_ok());
    let e = check_requirement_count(2, Some("numeric")).unwrap_err();
    assert_eq!(
        e.output,
        "Password does not meet enough complexity requirements. Missing: numeric"
    );
    let e = check_requirement_count(0, None).unwrap_err();
    assert_eq!(e.output, "Password does not meet enough complexity requirements. Missing: ");
}

#[test]
fn register_business_rules() {
    let ok = RegisterRequest { email: "a@b.com".to_string(), password: "Abcde1!".to_string() };
    assert!(ok.validate_business_logic().is_ok());
    let bad = RegisterRequest { email: "nope".to_string(), password: "x".to_string() };
    let e = bad.validate_business_logic().unwrap_err();
    assert_eq!(e.output, "Invalid Field Format email");
    assert_eq!(e.error_log, "Email is not a valid email!");
    assert_eq!(e.scenario, HttpScenario::Register);
    assert_eq!(e.case, HttpErrorCase::ZeroOne);
}

#[test]
fn login_business_rules() {
    let ok = LoginRequest { email: "a@b.com".to_string(), password: "x".to_string() };
    assert!(ok.validate_business_logic().is_ok());
    let bad = LoginRequest { email: "a@b".to_string(), password: "Abcde1!".to_string() };
    let e = bad.validate_business_logic().unwrap_err();
    assert_eq!(e.scenario, HttpScenario::Login);
    assert_eq!(e.response_code(), "4001401");
}
