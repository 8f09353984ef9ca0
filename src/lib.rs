//! Parsing of a small HTTP client's command line: which method to send, to
//! which URL, and whether to print the response body.

pub mod request;
pub mod text;

pub use request::{Input, RequestType, DEFAULT_URL, PRINT_BODY_FLAG};
