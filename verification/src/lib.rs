//! Composition core for a long-running node process.
//!
//! A node is assembled from a user-selected set of optional subsystems
//! ("components"), each realized as an independently attachable "layer".
//! Layers publish shared resources into a typed registry and may register
//! long-running tasks; the builder validates the selection, orders the
//! layers so producers attach before consumers, attaches them one by one,
//! and finalizes into a runnable service — all-or-nothing: a single attach
//! failure aborts the whole build and no task ever starts.

pub mod builder;
pub mod component;
pub mod config;
pub mod error;
pub mod layer;
pub mod laws;
pub mod node;
pub mod registry;
