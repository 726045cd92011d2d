//! Decisions behind the `codex/*` requests of the app server: applying a patch
//! through the file-change approval chain, reading a thread's history, and
//! forking a child agent.
//!
//! Every request is served as a conversation. The library says what has to be
//! done next, the server does it and reports what came of it, and the library
//! decides how to go on, until it hands back the response or the error.
pub mod apply_patch;
pub mod call_laws;
pub mod clock;
pub mod error;
pub mod history;
pub mod history_laws;
pub mod model_laws;
pub mod output;
pub mod patch_course;
pub mod patch_laws;
pub mod protocol;
pub mod spawn_agent;
pub mod spawn_course;
pub mod spawn_laws;
pub mod stamp;
pub mod text;
pub mod text_laws;
