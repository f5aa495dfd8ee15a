//! Decision core of a self-updater for a desktop application.
//!
//! The crate performs no input or output. A host program carries out each
//! [`host::Action`] it is handed and reports what happened as a
//! [`host::Reply`]; every decision between two such steps is taken here.

pub mod error;
pub mod platform;
pub mod release;
pub mod host;
pub mod download;
pub mod elevation;
pub mod probe;
pub mod plugin;
pub mod application;
pub mod updater;
