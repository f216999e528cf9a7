//! Responses that carry their own trace identifier beside the code, the
//! message and an optional payload.
use crate::context::{generate_trace_id, is_trace_id_format};
use vstd::prelude::*;

verus! {

pub const SUCCESS: &'static str = "2001400";

pub const VALIDATION_ERROR: &'static str = "4001400";

pub const NOT_FOUND: &'static str = "4041400";

pub const INTERNAL_ERROR: &'static str = "5001400";

pub const UNAUTHORIZED: &'static str = "4011400";

pub const FORBIDDEN: &'static str = "4031400";

/// A response with its trace identifier; `data` is present on success only.
#[derive(Debug, Clone)]
pub struct ApiResponse<T> {
    pub data: Option<T>,
    pub response_code: String,
    pub response_message: String,
    pub trace_id: String,
}

impl<T> ApiResponse<T> {
    /// A success with the default code and a fresh trace identifier.
    pub fn success(data: T) -> (r: ApiResponse<T>)
        ensures
            r.data == Some(data),
            r.response_code@ == SUCCESS@,
            r.response_message@ == "Successful"@,
            is_trace_id_format(r.trace_id@),
    {
        ApiResponse::success_with_code_and_trace_id(data, SUCCESS, "Successful", generate_trace_id())
    }

    pub fn success_with_trace_id(data: T, trace_id: String) -> (r: ApiResponse<T>)
        ensures
            r.data == Some(data),
            r.response_code@ == SUCCESS@,
            r.response_message@ == "Successful"@,
            r.trace_id@ == trace_id@,
    {
        ApiResponse::success_with_code_and_trace_id(data, SUCCESS, "Successful", trace_id)
    }

    pub fn success_with_code(data: T, code: &str, message: &str) -> (r: ApiResponse<T>)
        ensures
            r.data == Some(data),
            r.response_code@ == code@,
            r.response_message@ == message@,
            is_trace_id_format(r.trace_id@),
    {
        ApiResponse::success_with_code_and_trace_id(data, code, message, generate_trace_id())
    }

    pub fn success_with_code_and_trace_id(data: T, code: &str, message: &str, trace_id: String) -> (r:
        ApiResponse<T>)
        ensures
            r.data == Some(data),
            r.response_code@ == code@,
            r.response_message@ == message@,
            r.trace_id@ == trace_id@,
    {
        ApiResponse {
            data: Some(data),
            response_code: String::from_str(code),
            response_message: String::from_str(message),
            trace_id,
        }
    }

    /// An error: no payload, a fresh trace identifier.
    pub fn error(code: &str, message: &str) -> (r: ApiResponse<()>)
        ensures
            r.data is None,
            r.response_code@ == code@,
            r.response_message@ == message@,
            is_trace_id_format(r.trace_id@),
    {
        ApiResponse::<()>::error_with_trace_id(code, message, generate_trace_id())
    }

    pub fn error_with_trace_id(code: &str, message: &str, trace_id: String) -> (r: ApiResponse<()>)
        ensures
            r.data is None,
            r.response_code@ == code@,
            r.response_message@ == message@,
            r.trace_id@ == trace_id@,
    {
        ApiResponse {
            data: None,
            response_code: String::from_str(code),
            response_message: String::from_str(message),
            trace_id,
        }
    }
}

impl ApiResponse<()> {
    /// A success without payload and with a fresh trace identifier.
    pub fn success_empty() -> (r: ApiResponse<()>)
        ensures
            r.data is None,
            r.response_code@ == SUCCESS@,
            r.response_message@ == "Successful"@,
            is_trace_id_format(r.trace_id@),
    {
        ApiResponse::<()>::success_empty_with_trace_id(generate_trace_id())
    }

    pub fn success_empty_with_trace_id(trace_id: String) -> (r: ApiResponse<()>)
        ensures
            r.data is None,
            r.response_code@ == SUCCESS@,
            r.response_message@ == "Successful"@,
            r.trace_id@ == trace_id@,
    {
        ApiResponse {
            data: None,
            response_code: String::from_str(SUCCESS),
            response_message: String::from_str("Successful"),
            trace_id,
        }
    }
}

} // verus!
