//! Decision logic of the Shore MCP bridge: which tools may run against which
//! daemon profile, where a test profile lives, how the bridge attaches to a
//! daemon, and how replies on the wire are interpreted.
pub mod attach;
pub mod cli;
pub mod gating;
pub mod profile;
pub mod reply;
pub mod session;
pub mod text;
pub mod tools;
