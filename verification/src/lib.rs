//! Core of a graphical client for a remote node-management service: the
//! asynchronous operation dispatcher and the single-flight operation registry.
//!
//! A user action triggers a remote operation; the registry keeps at most one
//! outstanding unit of work per operation key, the frontend polls once per redraw
//! tick to drain completed work, and a pending signal says whether another poll
//! should be scheduled soon.  The remote client, the rendering layer and all file
//! and network I/O stay outside this crate; the library decides, the caller
//! performs.

pub mod task;
pub mod text;
pub mod config;
pub mod api;
pub mod state;
pub mod dispatch;
pub mod laws;
