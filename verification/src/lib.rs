//! Verified core of a sandbox analysis service: the status state machine,
//! admission and scheduling decisions, content hashing and the catalog of
//! sandboxes.

pub mod analyzer;
pub mod api;
pub mod config;
pub mod db;
pub mod hasher;
pub mod ident;
pub mod laws;
pub mod model;
pub mod sandbox;
pub mod schema;
pub mod status;
pub mod store;
pub mod text;
pub mod time;
