//! Verified core of a Rust SDK for Temporal workflow orchestration.
//!
//! The library holds the decisions of the SDK: the workflow state machine that
//! turns activations into completions, the worker builder, the activity and
//! workflow error types, the option types, and the planning step of the
//! activity and workflow attribute macros. Network I/O, async plumbing and
//! token generation live in the application crate around it.
pub mod outside;
pub mod text;
pub mod fixtures;
pub mod workflow;
pub mod workflow_machine;
pub mod macro_plan;
pub mod error;
pub mod activity;
pub mod registry;
pub mod worker;
pub mod config;
pub mod client;
pub mod containers;
