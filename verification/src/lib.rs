//! Digging into a `serde_json::Value` along a path.
//!
//! A path is a slice of string keys, of array indices, or of [`DigIndex`]
//! segments that mix the two. [`Dig::get_deep`] follows it from a value, one
//! container per segment, and returns the value it ends at, or `None` as soon
//! as a segment has nothing to select.

pub mod dig;
pub mod json;
pub mod laws;
pub mod path;

pub use dig::Dig;
pub use path::DigIndex;
