//! Links files and directories of a source tree into destination places, as
//! a tabular manifest declares them.
//!
//! The library parses the manifest into declarations, judges each of them
//! against what the filesystem holds, and decides, step by step, what has to
//! be done to make each link. It never touches the filesystem itself: the
//! caller reads the manifest, observes the paths and performs the steps.

pub mod dotfiles;
pub mod laws;
pub mod link;
pub mod path;
pub mod remote;
pub mod text;
pub mod validate;
