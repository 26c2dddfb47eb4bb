//! Tracking of the commands that send robots to the floors of a building.
//!
//! A command is created pending and is completed once. The crate holds the
//! command record and its lifecycle, an in-memory command repository, the
//! replies that the HTTP interface gives, and the cross-origin policy, each
//! with a machine-checked contract.

pub mod ident;
pub mod text;
pub mod command;
pub mod store;
pub mod laws;
pub mod api;
pub mod cors;
pub mod config;
