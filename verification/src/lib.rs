//! Decision logic of a small helper for a community package repository.
//!
//! The crate holds the parts of the helper that compute: reading the
//! semi-structured text that the package database and the build tool print,
//! classifying a metadata reply, and the step functions of the install and
//! update workflows. Running processes, talking to the network and owning the
//! temporary workspace are left to the caller, which feeds the results back
//! in as plain values.

pub mod text;
pub mod prober;
pub mod diagnostics;
pub mod message;
pub mod metadata;
pub mod invocation;
pub mod install;
pub mod update;
pub mod remove;
