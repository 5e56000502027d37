//! Lists the branches of a repository, oldest tip first, one rendered line per
//! branch: commit time, short commit id, a marker for the checked-out or a
//! remote-tracking branch, and the branch name in a colour chosen by its kind.
//!
//! The crate holds the decisions and the text layout. Reading the repository
//! is left to the caller, who hands over what it found as plain values.

pub mod text;
pub mod paint;
pub mod pattern;
pub mod category;
pub mod model;
pub mod clock;
pub mod render;
pub mod gather;
pub mod order;
pub mod report;
pub mod laws;
pub mod entry;
