//! Request pipeline of a small account service: response-code taxonomy,
//! declarative payload validation, typed extraction and the decisions of the
//! request-context middleware.

pub mod account;
pub mod config;
pub mod context;
pub mod json;
pub mod request;
pub mod logging;
pub mod middleware;
pub mod response;
pub mod safe_json;
pub mod taxonomy;
pub mod validator;
