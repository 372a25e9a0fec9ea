//! A small verified web-service core: an embedded static-asset bundle with
//! single-page-application fallback routing, composed with a minimal JSON
//! to-do API and a few desktop host commands.
//!
//! The library works on plain bytes: requests come in as a method, a path and
//! the decoded fields of a JSON body; responses go out as status, content
//! type and body bytes. The surrounding process (listener, body decoding,
//! header plumbing) lives outside the library and hands it plain values.

pub mod bundle;
mod host;
pub mod json;
pub mod router;
pub mod shell;
pub mod text;
pub mod todo;
