//! Batch extraction of video keyframes: the decisions of the batch, verified.
//!
//! The crate holds everything the batch decides: which directory entries are
//! inputs, where the frames of an input go, what the decoder is told, how one
//! extraction proceeds from what the file system and the decoder answered, and
//! how the outcomes of all tasks add up. It touches neither the file system nor
//! a process: the caller walks the tree, runs the decoder, and reports back.

pub mod discovery;
pub mod dispatch;
pub mod extract;
pub mod model;
pub mod path;
pub mod text;
