//! Bookkeeping for triaging a folder of images: the queue of pending paths,
//! the current selection, the undo stack, and the decisions that move, delete
//! and undo make around the renames that the caller performs on disk.

pub mod config;
pub mod laws;
pub mod manager;
pub mod paths;
pub mod queue;
pub mod session;
