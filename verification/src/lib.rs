//! Sorting of newly arrived files into per-category folders.
//!
//! A watched folder is observed as a series of snapshots. Each path that is
//! present in a snapshot and absent from the one before it is an addition,
//! and every addition is moved into a subfolder chosen by the extension of
//! its file name.
pub mod category;
pub mod config;
pub mod error;
pub mod mover;
pub mod path;
pub mod snapshot;
pub mod watcher;
