//! Verified core of a library for Microsoft Time Travel Debugging (TTD) traces.
//!
//! The replay engine itself lives in the TTD SDK; this crate holds the data
//! model of what the SDK reports, the conversions applied to it, the
//! navigation decisions taken around each SDK call, and the textual forms
//! that the library prints.
pub mod text;
pub mod position;
pub mod utf16;
pub mod utf8;
pub mod sys_error;
pub mod record;
pub mod error;
pub mod flags;
pub mod context;
pub mod module;
pub mod events;
pub mod system_info;
pub mod replay;
pub mod engine_info;
pub mod pe;
pub mod unpack;
pub mod api_calls;
