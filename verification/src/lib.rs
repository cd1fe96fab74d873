//! Decisions of a tool that stages every change of a Git working tree,
//! commits it under the configured identity and optionally pushes the branch.
//!
//! The crate holds no repository handle. A caller performs each requested
//! piece of repository work and reports its outcome; the crate decides what
//! comes next, which commit is made and what a failure is called.

pub mod failure;
pub mod names;
pub mod object_id;
pub mod run;
pub mod signing;
pub mod workflow;
