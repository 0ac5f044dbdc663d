//! Sorting screenshots into a tree of dated directories: the rules by which a watched
//! directory is kept in order, as functions from plain values to plain values.

use vstd::prelude::*;

pub mod classify;
pub mod entry;
pub mod latest;
pub mod mover;
pub mod numbers;
pub mod reconcile;
pub mod watch;

verus! {

/// Command-line arguments: the directory to watch.
#[derive(Clone, Debug)]
pub struct Args {
    /// Path to the screenshot directory.
    pub screenshot_dir: String,
}

} // verus!
