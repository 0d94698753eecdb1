//! Resolver core of a directory-listing tool: turns the raw command-line
//! invocation (occurrence counts and free-text option values) into one
//! canonical, internally consistent rendering configuration.

pub mod config;
pub mod enums;
pub mod invocation;
pub mod resolve;
pub mod text;
