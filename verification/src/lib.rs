//! A sandboxed tool-execution gateway: path containment, profile-driven
//! permissions, command allow-listing, admission control and the uniform
//! call/response envelope, with every decision stated as a contract.
//!
//! The library performs no I/O. Whatever touches the file system or a child
//! process is done by the host, in three steps: it asks the library which
//! path or command it may touch (`read_target`, `patch_refusal`,
//! `patch_target`, `patch_action`, `search_scope`, `exec_plan`), touches
//! that and nothing else, and hands what it observed to the tool
//! (`read_file`, `list_files`, `search_files`, `apply_patch`, `exec`), which
//! answers with the envelope or the failure. `dispatch_tool` turns either
//! into the envelope of the call.
//!
//! - `errors`, `envelope`: the failure taxonomy and the envelope.
//! - `config`: the configuration and the permission model.
//! - `rate`, `auth`: the token bucket, the key check and the rate limit.
//! - `tools`: the dispatcher; `tools::fs`: the path resolver and the file
//!   tools; `tools::exec`: the command sandbox.
//! - `text`, `paths`, `globs`, `patterns`, `json`: strings, paths, glob
//!   sets, regular expressions and JSON values as the tools use them.

pub mod auth;
pub mod config;
pub mod envelope;
pub mod errors;
pub mod globs;
pub mod json;
pub mod paths;
pub mod patterns;
pub mod rate;
pub mod text;
pub mod tools;
