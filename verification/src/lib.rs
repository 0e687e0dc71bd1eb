//! A Gemini capsule server's request handling, reply framing and
//! configuration resolution, with contracts proved by Verus.

pub mod cli;
pub mod laws;
pub mod path;
pub mod reply;
pub mod request;
pub mod serve;
pub mod session;
pub mod trusted;
