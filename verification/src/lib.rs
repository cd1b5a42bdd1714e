//! Decision and planning logic for batch transcoding of media files.
//!
//! The crate decides which probed files miss a target profile, composes the
//! transcoder's argument list for them, and decides what becomes of the
//! produced file. It starts no process and touches no file: callers perform
//! the actions that the functions here return.

pub mod compliance;
pub mod disposition;
pub mod ffmpeg;
pub mod ffprobe;
pub mod models;
pub mod numerals;
pub mod orchestrate;
pub mod padding;
pub mod pool;
pub mod reconcile;
pub mod text;
pub mod tokens;
pub mod tracks;
pub mod utils;
