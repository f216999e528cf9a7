use plug_and_plant_be_axum_sqlx::context::{
    choose_trace_id, create_request_context, extract_or_generate_trace_id,
    format_request_context_for_log, get_current_request_context, is_well_formed_trace_id,
    RequestContext,
};
use plug_and_plant_be_axum_sqlx::logging::{
    generate_parent_span_id, generate_span_id, get_status_text, replace_spaces,
    trim_matches_quote, CustomFormatter, LogRecord, LogScope,
};
use plug_and_plant_be_axum_sqlx::middleware::{
    create_error_response, decimal_text, format_body_for_logging, headers_json, headers_to_map,
    incoming_log_line, outbound_headers, outgoing_log_line, render_body_log, summary_log_line,
    RequestPipeline, Stage,
};
use plug_and_plant_be_axum_sqlx::response::ApiResponse;

fn is_generated_form(s: &str) -> bool {
    s.len() == 32 && s.chars().all(|c| c.is_ascii_digit() || ('a'..='f').contains(&c))
}

#[test]
fn context_metadata_is_a_map() {
    let ctx = RequestContext::new("POST".to_string(), "/x".to_string(), "id1".to_string());
    assert!(ctx.metadata.is_empty());
    let ctx = ctx.add_metadata("k".to_string(), "v1".to_string());
    let ctx = ctx.add_metadata("j".to_string(), "w".to_string());
    let ctx = ctx.add_metadata("k".to_string(), "v2".to_string());
    assert_eq!(ctx.metadata.len(), 2);
    assert!(ctx.metadata.contains(&("k".to_string(), "v2".to_string())));
    assert!(ctx.metadata.contains(&("j".to_string(), "w".to_string())));
    assert_eq!(ctx.describe(), "[id1 POST /x]");
}

#[test]
fn created_context_has_a_timestamp() {
    let ctx = create_request_context("GET", "/account/login", "abc".to_string());
    assert_eq!(ctx.method, "GET");
    assert_eq!(ctx.path, "/account/login");
    assert_eq!(ctx.request_id, "abc");
    assert_eq!(ctx.metadata.len(), 1);
    assert_eq!(ctx.metadata[0].0, "timestamp");
    assert!(!ctx.metadata[0].1.is_empty());
    assert!(get_current_request_context().is_none());
}

#[test]
fn trace_id_is_echoed_when_present() {
    assert_eq!(extract_or_generate_trace_id(Some("trace-123".to_string())), "trace-123");
    assert_eq!(choose_trace_id(Some("abc".to_string()), "gen".to_string()), "abc");
    assert_eq!(choose_trace_id(None, "gen".to_string()), "gen");
    assert_eq!(choose_trace_id(Some(String::new()), "gen".to_string()), "");
    assert_eq!(extract_or_generate_trace_id(Some(String::new())), "");
    assert_eq!(choose_trace_id(Some("bad\u{7f}".to_string()), "gen".to_string()), "gen");
}

#[test]
fn trace_id_is_generated_when_absent() {
    let a = extract_or_generate_trace_id(None);
    let b = extract_or_generate_trace_id(Some("bad\nid".to_string()));
    assert!(is_generated_form(&a));
    assert!(is_generated_form(&b));
    assert_ne!(a, b);
}

#[test]
fn trace_id_well_formedness() {
    assert!(is_well_formed_trace_id("0af7651916cd43dd8448eb211c80319c"));
    assert!(is_well_formed_trace_id("a b\tc"));
    assert!(is_well_formed_trace_id(""));
    assert!(!is_well_formed_trace_id("é"));
    assert!(!is_well_formed_trace_id("a\nb"));
}

#[test]
fn outbound_headers_carry_the_trace_id() {
    let h = outbound_headers("2024-01-01T00:00:00+00:00".to_string(), "trace-123".to_string())
        .unwrap();
    assert_eq!(
        h,
        vec![
            ("x-timestamp".to_string(), "2024-01-01T00:00:00+00:00".to_string()),
            ("x-b3-traceid".to_string(), "trace-123".to_string()),
        ]
    );
    assert!(outbound_headers("ok".to_string(), "bad\nvalue".to_string()).is_none());
    assert!(outbound_headers("bad\u{7f}".to_string(), "ok".to_string()).is_none());
}

#[test]
fn end_to_end_trace_header_echo() {
    let inbound = Some("client-trace-1".to_string());
    let id = extract_or_generate_trace_id(inbound);
    let h = outbound_headers("t".to_string(), id).unwrap();
    assert_eq!(h[1].1, "client-trace-1");
    let id = extract_or_generate_trace_id(None);
    let h = outbound_headers("t".to_string(), id).unwrap();
    assert!(is_generated_form(&h[1].1));
}

#[test]
fn body_rendering_for_logs() {
    assert_eq!(format_body_for_logging(b""), "");
    assert_eq!(format_body_for_logging(br#"{ "a" : [true, null], "b" : 1 }"#), "{\n  \"a\": [\n    true,\n    null\n  ],\n  \"b\": 1\n}");
    assert_eq!(format_body_for_logging(b"plain text"), "plain text");
    assert_eq!(format_body_for_logging(&[0xff, 0xfe, 0x00]), "<binary or non-UTF8 content>");
    assert_eq!(render_body_log(true, Some("j".to_string()), None), "");
    assert_eq!(render_body_log(false, None, Some("t".to_string())), "t");
}

#[test]
fn header_map_and_json() {
    let entries = vec![
        ("content-type".to_string(), Some("application/json".to_string())),
        ("x-bin".to_string(), None),
    ];
    let map = headers_to_map(&entries);
    assert_eq!(
        map,
        vec![
            ("content-type".to_string(), "application/json".to_string()),
            ("x-bin".to_string(), "<non-utf8>".to_string()),
        ]
    );
    assert_eq!(headers_json(&map), r#"{"content-type":"application/json","x-bin":"<non-utf8>"}"#);
    assert_eq!(headers_json(&Vec::new()), "{}");
}

#[test]
fn header_map_keeps_the_last_value_of_a_name() {
    let entries = vec![
        ("accept".to_string(), Some("text/html".to_string())),
        ("host".to_string(), Some("example".to_string())),
        ("accept".to_string(), Some("application/json".to_string())),
    ];
    assert_eq!(
        headers_to_map(&entries),
        vec![
            ("accept".to_string(), "application/json".to_string()),
            ("host".to_string(), "example".to_string()),
        ]
    );
}

#[test]
fn log_lines() {
    assert_eq!(incoming_log_line("POST", "/a", "{}", "x"), "[IN](POST,/a){},x");
    assert_eq!(outgoing_log_line("POST", "/a", "{}", ""), "[OUT](POST,/a){},");
    assert_eq!(summary_log_line("GET", "/", 1234, "200 OK"), "(GET,/,1234ms) [200 OK]");
    assert_eq!(decimal_text(0), "0");
    assert_eq!(decimal_text(10), "10");
    assert_eq!(decimal_text(u64::MAX), u64::MAX.to_string());
}

#[test]
fn pipeline_failure_response() {
    let r = create_error_response();
    assert_eq!(r.status, 500);
    assert_eq!(r.body, "Internal server error");
}

#[test]
fn scope_label() {
    assert_eq!(format_request_context_for_log(None), "[no context]");
    assert_eq!(format_request_context_for_log(Some("http_request")), "[http_request]");
}

#[test]
fn status_words() {
    assert_eq!(get_status_text("2001400"), "SUCCESS");
    assert_eq!(get_status_text("4041400"), "NOT_FOUND");
    assert_eq!(get_status_text("4001400"), "VALIDATION_ERROR");
    assert_eq!(get_status_text("5001400"), "INTERNAL_ERROR");
    assert_eq!(get_status_text("2001300"), "UNKNOWN");
}

#[test]
fn text_helpers() {
    assert_eq!(replace_spaces("a b  c"), "a_b__c");
    assert_eq!(trim_matches_quote("\"\"hi \"x\"\""), "hi \"x");
    assert_eq!(trim_matches_quote("\"\"\""), "");
    assert_eq!(trim_matches_quote("plain"), "plain");
}

#[test]
fn record_fields() {
    let mut r = LogRecord::new();
    assert_eq!(r.response_code, "2001400");
    r.record_str("message", "user logged in");
    r.record_str("response_code", "4001400");
    r.record_str("other", "ignored");
    r.record_u64("response_time_ms", 42);
    r.record_u64("user_id", 7);
    assert_eq!(r.message, "user logged in");
    assert_eq!(r.response_code, "4001400");
    assert_eq!(r.duration, 42);
    assert_eq!(r.user_id, "7");
    r.record_debug("message", "\"quoted\"");
    assert_eq!(r.message, "quoted");
    r.record_debug("user_id", "\"x\"");
    assert_eq!(r.user_id, "7");
}

fn scope() -> LogScope {
    LogScope {
        trace_id: "ta".to_string(),
        span_id: "sa".to_string(),
        parent_span_id: "pa".to_string(),
        timestamp: "2024-01-01 00:00:00.000".to_string(),
        thread_name: "main-thread".to_string(),
        level: "INFO".to_string(),
    }
}

#[test]
fn log_line_layout() {
    let mut r = LogRecord::new();
    r.record_str("message", "user logged in");
    r.record_u64("duration", 12);
    r.record_str("user_id", "u9");
    assert_eq!(
        CustomFormatter.format_event(&scope(), &r),
        "[plug-and-plant-service] - [ta, sa, pa] 2024-01-01 00:00:00.000 [main-thread] INFO PLUG-AND-PLANT - [PLUG-AND-PLANT] (USER_LOGGED_IN,12ms,Y,2001400[SUCCESS]) [USER_ID: u9]\n"
    );
    let mut r = LogRecord::new();
    r.record_str("response_code", "5001400");
    assert_eq!(
        CustomFormatter.format_event(&scope(), &r),
        "[plug-and-plant-service] - [ta, sa, pa] 2024-01-01 00:00:00.000 [main-thread] INFO PLUG-AND-PLANT - [PLUG-AND-PLANT] (UNKNOWN_OPERATION,0ms,N,5001400[INTERNAL_ERROR]) []\n"
    );
}

#[test]
fn span_ids() {
    let s = generate_span_id();
    let p = generate_parent_span_id();
    assert_eq!(s.len(), 16);
    assert!(is_generated_form(&p));
}

#[test]
fn traced_responses() {
    let r = ApiResponse::success(5u8);
    assert_eq!(r.data, Some(5));
    assert_eq!(r.response_code, "2001400");
    assert_eq!(r.response_message, "Successful");
    assert!(is_generated_form(&r.trace_id));
    let r = ApiResponse::success_with_code_and_trace_id("d", "2001300", "Created", "t".to_string());
    assert_eq!((r.response_code.as_str(), r.response_message.as_str(), r.trace_id.as_str()), ("2001300", "Created", "t"));
    let e = ApiResponse::<u8>::error_with_trace_id("4001400", "bad", "t2".to_string());
    assert!(e.data.is_none());
    assert_eq!(e.trace_id, "t2");
    let e = ApiResponse::<u8>::error("5001400", "down");
    assert!(is_generated_form(&e.trace_id));
    let s = ApiResponse::<()>::success_empty_with_trace_id("t3".to_string());
    assert_eq!(s.response_code, "2001400");
    assert!(ApiResponse::<()>::success_empty().data.is_none());
    let w = ApiResponse::success_with_trace_id(1u8, "t4".to_string());
    assert_eq!(w.trace_id, "t4");
    let c = ApiResponse::success_with_code(1u8, "2000000", "ok");
    assert_eq!(c.response_code, "2000000");
}

#[test]
fn pipeline_stages_in_order() {
    let mut p = RequestPipeline::start("POST".to_string(), "/account/login".to_string());
    assert_eq!(p.stage, Stage::Start);
    p.buffer_request_body(Some(br#"{"email":"a@b.com"}"#.to_vec()));
    assert_eq!(p.stage, Stage::BodyBuffered);
    assert_eq!(p.request_body, br#"{"email":"a@b.com"}"#.to_vec());
    let ctx = p.attach_context(Some("trace-9".to_string()));
    assert_eq!(p.stage, Stage::ContextAttached);
    assert_eq!(p.trace_id, "trace-9");
    assert_eq!(ctx.request_id, "trace-9");
    assert_eq!(ctx.method, "POST");
    assert_eq!(ctx.metadata[0].0, "timestamp");
    let line = p.enter_downstream("{}");
    assert_eq!(p.stage, Stage::Downstream);
    assert_eq!(line, "[IN](POST,/account/login){},{\n  \"email\": \"a@b.com\"\n}");
    p.capture_response(None);
    assert_eq!(p.stage, Stage::ResponseCaptured);
    assert!(p.response_body.is_empty());
    let headers = p.finish_with_timestamp("2024-01-01T00:00:00Z".to_string()).unwrap();
    assert_eq!(p.stage, Stage::Finished);
    assert_eq!(headers[0], ("x-timestamp".to_string(), "2024-01-01T00:00:00Z".to_string()));
    assert_eq!(headers[1], ("x-b3-traceid".to_string(), "trace-9".to_string()));
    // the replayed body is the one that was read
    assert_eq!(p.request_body, br#"{"email":"a@b.com"}"#.to_vec());
}

#[test]
fn pipeline_generates_trace_and_fails_on_bad_header() {
    let mut p = RequestPipeline::start("GET".to_string(), "/".to_string());
    p.buffer_request_body(None);
    assert!(p.request_body.is_empty());
    p.attach_context(None);
    assert!(is_generated_form(&p.trace_id));
    assert_eq!(p.enter_downstream("{}"), "[IN](GET,/){},");
    p.capture_response(Some(b"ok".to_vec()));
    assert_eq!(p.response_body, b"ok".to_vec());
    assert!(p.finish_with_timestamp("bad\ntime".to_string()).is_none());
}

#[test]
fn log_line_with_given_operation() {
    let r = LogRecord::new();
    assert_eq!(
        CustomFormatter.format_with_operation(&scope(), "LOGIN", &r),
        "[plug-and-plant-service] - [ta, sa, pa] 2024-01-01 00:00:00.000 [main-thread] INFO PLUG-AND-PLANT - [PLUG-AND-PLANT] (LOGIN,0ms,Y,2001400[SUCCESS]) []\n"
    );
}

#[test]
fn pipeline_finish_stamps_the_current_time() {
    let mut p = RequestPipeline::start("GET".to_string(), "/".to_string());
    p.buffer_request_body(None);
    p.attach_context(Some(String::new()));
    assert_eq!(p.trace_id, "");
    p.enter_downstream("{}");
    p.capture_response(None);
    let headers = p.finish().unwrap();
    assert_eq!(headers[0].0, "x-timestamp");
    assert!(headers[0].1.contains('T'));
    assert!(headers[0].1.chars().all(|c| c.is_ascii_digit() || "-+:T.".contains(c)));
    assert_eq!(headers[1], ("x-b3-traceid".to_string(), String::new()));
}
