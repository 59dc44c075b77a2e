//! Business logic of a command-line client for the GetOutline documentation service:
//! the ports that adapters implement, the error taxonomy that crosses them, and the
//! orchestration of listing documents and saving one of them locally.

pub mod auth;
pub mod cause;
pub mod config;
pub mod documents;
pub mod getoutline_connection;
pub mod say_hello;
