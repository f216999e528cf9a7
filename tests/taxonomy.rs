use plug_and_plant_be_axum_sqlx::taxonomy::{
    compose_response_code, frame_error_body, status_text, success_code, HttpError, HttpErrorCase,
    HttpScenario,
};

const SCENARIOS: [HttpScenario; 3] = [HttpScenario::Index, HttpScenario::Register, HttpScenario::Login];
const CASES: [HttpErrorCase; 5] = [
    HttpErrorCase::ZeroZero,
    HttpErrorCase::ZeroOne,
    HttpErrorCase::ZeroThree,
    HttpErrorCase::ZeroFour,
    HttpErrorCase::ZeroSix,
];

#[test]
fn scenario_codes() {
    assert_eq!(HttpScenario::Index.get_code(), "00");
    assert_eq!(HttpScenario::Register.get_code(), "13");
    assert_eq!(HttpScenario::Login.get_code(), "14");
}

#[test]
fn case_codes() {
    assert_eq!(HttpErrorCase::ZeroZero.get_case(), "00");
    assert_eq!(HttpErrorCase::ZeroOne.get_case(), "01");
    assert_eq!(HttpErrorCase::ZeroThree.get_case(), "03");
    assert_eq!(HttpErrorCase::ZeroFour.get_case(), "04");
    assert_eq!(HttpErrorCase::ZeroSix.get_case(), "06");
}

#[test]
fn codes_are_unique_within_each_axis() {
    for (i, a) in SCENARIOS.iter().enumerate() {
        for b in SCENARIOS.iter().skip(i + 1) {
            assert_ne!(a.get_code(), b.get_code());
        }
    }
    for (i, a) in CASES.iter().enumerate() {
        for b in CASES.iter().skip(i + 1) {
            assert_ne!(a.get_case(), b.get_case());
        }
    }
}

#[test]
fn response_code_is_status_scenario_case() {
    assert_eq!(compose_response_code(400, &HttpScenario::Register, &HttpErrorCase::ZeroSix), "4001306");
    assert_eq!(compose_response_code(500, &HttpScenario::Login, &HttpErrorCase::ZeroOne), "5001401");
    assert_eq!(compose_response_code(200, &HttpScenario::Index, &HttpErrorCase::ZeroZero), "2000000");
}

#[test]
fn response_code_has_seven_characters_and_is_pure() {
    for status in [100u16, 200, 400, 404, 500, 999] {
        for s in SCENARIOS.iter() {
            for c in CASES.iter() {
                let first = compose_response_code(status, s, c);
                let second = compose_response_code(status, s, c);
                assert_eq!(first.len(), 7);
                assert_eq!(first, second);
                assert_eq!(&first[0..3], status.to_string());
                assert_eq!(&first[3..5], s.get_code());
                assert_eq!(&first[5..7], c.get_case());
            }
        }
    }
}

#[test]
fn status_text_digits() {
    assert_eq!(status_text(100), "100");
    assert_eq!(status_text(409), "409");
    assert_eq!(status_text(999), "999");
}

#[test]
fn success_codes_use_the_reserved_case() {
    assert_eq!(success_code(&HttpScenario::Register), "2001300");
    assert_eq!(success_code(&HttpScenario::Login), "2001400");
}

fn sample_error() -> HttpError {
    HttpError::new(
        400,
        HttpScenario::Register,
        HttpErrorCase::ZeroThree,
        "Email already registered: a@b.com".to_string(),
        "Email already registered".to_string(),
    )
}

#[test]
fn error_response_code_and_status() {
    let e = sample_error();
    assert_eq!(e.response_code(), "4001303");
    assert_eq!(e.http_status(), 400);
    let mut odd = sample_error();
    odd.status = 1000;
    assert_eq!(odd.http_status(), 500);
    odd.status = 99;
    assert_eq!(odd.http_status(), 500);
}

#[test]
fn error_body_holds_code_and_output_only() {
    let e = sample_error();
    let body = e.render_body();
    assert_eq!(body, r#"{"responseCode":"4001303","responseMessage":"Email already registered"}"#);
    assert!(!body.contains("a@b.com"));
}

#[test]
fn error_body_escapes_the_message() {
    let e = HttpError::new(
        400,
        HttpScenario::Index,
        HttpErrorCase::ZeroOne,
        String::new(),
        "say \"hi\"".to_string(),
    );
    assert_eq!(e.render_body(), r#"{"responseCode":"4000001","responseMessage":"say \"hi\""}"#);
}

#[test]
fn error_body_frame() {
    assert_eq!(
        frame_error_body("\"4001301\"", "\"bad\""),
        r#"{"responseCode":"4001301","responseMessage":"bad"}"#
    );
}

#[test]
fn error_body_escapes_control_characters() {
    let e = HttpError::new(
        400,
        HttpScenario::Index,
        HttpErrorCase::ZeroOne,
        String::new(),
        "a\\b\n\u{1}\u{7f}/é".to_string(),
    );
    assert_eq!(
        e.render_body(),
        "{\"responseCode\":\"4000001\",\"responseMessage\":\"a\\\\b\\n\\u0001\u{7f}/é\"}"
    );
}
