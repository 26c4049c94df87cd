//! Live-preview engine for a single rendered markdown document.
//!
//! The crate holds the logic of a preview server: one rendered artifact kept
//! in memory, re-rendered whenever the backing source changes, with a reload
//! signal fanned out to every currently connected viewer.

pub mod platform;
pub mod render;
pub mod stream;
pub mod sync;
pub mod template;
pub mod watcher;
