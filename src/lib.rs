//! A Concourse resource type that watches and creates GitHub issues.
//!
//! The library decides what each step of the resource does: which request goes
//! to the issue tracker, and how the tracker's answer becomes versions and
//! metadata. The program around it performs the requests.

pub mod concourse;
pub mod error;
pub mod github_issue;
