//! A personal task-list manager: named lists of items kept in a local cache,
//! and the decisions that reconcile that cache with a remote collection of
//! list documents.
//!
//! The crate holds the data model, the cache and its operations, the two
//! synchronisation protocols as state machines, and the command dispatch.
//! Reading and writing files, talking to the remote store and printing are
//! left to the caller.

pub mod auth;
pub mod cli;
pub mod commands;
pub mod db;
pub mod error;
pub mod laws;
pub mod models;
pub mod sync;
pub mod text;
