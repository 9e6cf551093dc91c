//! Helpers for programs that supervise agents: the rules of launching a
//! subprocess and of naming configuration files.
pub mod config;
pub mod launcher;
