//! Line-oriented regular-expression filtering: for each line of text, either the
//! first whole match of a pattern or a chosen subset of its capture groups.
//!
//! Matching itself is done by the `regex` crate; everything this crate decides
//! around it (which groups are emitted, in which order, and when a run ends) is
//! stated in contracts and proved.

pub mod config;
pub mod engine;
pub mod flow;
pub mod search;
pub mod select;
