//! Detection of the Git hosting service that a remote URL belongs to.
//!
//! The library holds the decisions only: how the reply of a `git` query is
//! read, which remote and branch are taken, how an SCP-style remote is turned
//! into an SSH URL, and which hosting service a URL names. Running `git` is
//! left to the caller, who hands each outcome back to the library.

pub mod error;
pub mod git;
pub mod service;
pub mod text;
pub mod weburl;

pub use crate::error::Error;
pub use crate::service::{detect, detect_with_git, GitService};
