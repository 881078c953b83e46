//! A version-addressable cache of git repositories: bare mirrors, one
//! worktree per requested version, and a registry of named slots.
//!
//! Every decision of the cache is made here, by verified code. The git
//! subprocesses, the filesystem and the network are driven by the caller,
//! which performs the actions handed out by a [`job::Job`] and reports back
//! what happened.

pub mod github;
pub mod gitout;
pub mod index;
pub mod job;
pub mod layout;
pub mod manager;
