//! Dependency lifecycle orchestration for a package-manifest helper.
//!
//! The library decides what to ask, which tool invocations to issue and in
//! which order; the surrounding program performs the prompts, file reads and
//! subprocess runs and feeds their outcomes back in.
pub mod error;
pub mod args;
pub mod catalog;
pub mod manifest;
pub mod names;
pub mod invocation;
pub mod session;
pub mod laws;
