//! The data that the decisions are made on: the target profile and the
//! description of a probed file.

pub mod config;
pub mod file;
pub mod media;
