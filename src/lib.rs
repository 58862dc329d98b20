//! Launch orchestration for sandboxed MCP servers: transport selection, permission
//! profiles and the ordered launch protocol, as a state machine driven from outside.
pub mod cli;
pub mod error;
pub mod launch;
pub mod mode;
pub mod profile;
pub mod transport;
