//! A GitHub pull-request and issue assistant: it checks what a caller asks
//! for, shapes the GitHub REST requests that carry it out, and turns the
//! answers that come back into the replies the caller receives.

pub mod text;
pub mod validate;
pub mod url;
pub mod json;
pub mod inputs;
pub mod api;
pub mod outputs;
pub mod errors;
pub mod requests;
pub mod responses;
pub mod handlers;
pub mod laws;
pub mod reply_laws;
pub mod request_laws;
pub mod step_laws;
